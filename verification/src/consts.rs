use vstd::prelude::*;

verus! {

/// Side length of one displayed cell, in pixels.
pub const SCALE: usize = 16;

/// Side length of one displayed cell, in pixels, as the viewport sizes come.
pub const SCALE_U32: u32 = 16;

/// Initial window size, in pixels.
pub const WINDOW_W: usize = 800;

pub const WINDOW_H: usize = 640;

/// Initial board size, in cells.
pub const GRID_W: usize = WINDOW_W / SCALE;

pub const GRID_H: usize = WINDOW_H / SCALE;

/// Step by which the simulation interval is adjusted, in milliseconds.
pub const UPDATE_TIME_STEP_MS: u32 = 50;

/// Default simulation interval, in milliseconds.
pub const DEFAULT_UPDATE_CAP_MS: u32 = 500;

/// How long the viewport has to stay still before the board is resized to
/// it, in milliseconds.
pub const RESIZE_TIME_LIMIT_MS: u32 = 200;

} // verus!
