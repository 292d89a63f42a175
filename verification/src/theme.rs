use vstd::prelude::*;

verus! {

/// The visual theme the host renders with. The palette each name stands for
/// is the host's business; the engine only keeps track of which one is
/// selected and in which order they rotate.
#[derive(Clone, Copy, Debug, PartialEq, Eq, Structural)]
pub enum Theme {
    Default,
    Gruvbox,
    Matrix,
    Midnight,
}

impl Theme {
    /// The theme that follows this one in the rotation.
    pub open spec fn cycle_spec(self) -> Theme {
        match self {
            Theme::Default => Theme::Gruvbox,
            Theme::Gruvbox => Theme::Matrix,
            Theme::Matrix => Theme::Midnight,
            Theme::Midnight => Theme::Default,
        }
    }

    /// Advances to the next theme in the rotation.
    pub fn cycle(&mut self)
        ensures
            *final(self) == old(self).cycle_spec(),
    {
        *self = match *self {
            Theme::Default => Theme::Gruvbox,
            Theme::Gruvbox => Theme::Matrix,
            Theme::Matrix => Theme::Midnight,
            Theme::Midnight => Theme::Default,
        };
    }
}

} // verus!
