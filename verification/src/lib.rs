//! A verified engine for a Conway's Game-of-Life sandbox: a two-state cell
//! type with the canonical transition rule, a rectangular universe of cells
//! with fill/invert/randomize/resize operations, and a per-frame controller
//! that owns the mode state machine and the simulation and resize timers.
//!
//! Rendering, input polling and window management are the host's business;
//! the host feeds one `FrameInput` per frame into the controller and reads
//! the grid back to draw it.

pub mod cell;
pub mod consts;
pub mod game;
pub mod gol;
pub mod laws;
pub mod theme;
pub mod universe;
pub mod window;

pub use cell::Cell;
pub use gol::GameOfLife;
pub use universe::Universe;
