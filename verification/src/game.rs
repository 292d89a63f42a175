use vstd::prelude::*;

verus! {

/// Which simulation the player picked in the menu, if any.
#[derive(Clone, Copy, Debug, PartialEq, Eq, Structural)]
pub enum SelectedGame {
    NoneSelected,
    GameOfLife,
    Pong,
    Dvd,
}

/// The contract every hosted simulation offers the menu: construction, and
/// one update per rendered frame that reports which simulation should run
/// next.
pub trait Game: Sized {
    fn new() -> Self;

    fn update(&mut self) -> SelectedGame;
}

} // verus!
