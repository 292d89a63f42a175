use vstd::prelude::*;

verus! {

/// The smallest unit of the universe: a two-state value, dead or alive.
///
/// An enum rather than a bare boolean, so that the intent is documented and
/// room is left for future multi-state automata.
#[derive(Clone, Copy, Debug, PartialEq, Eq, Structural)]
pub enum Cell {
    Dead,
    Alive,
}

impl Cell {
    /// The canonical Conway transition rule, as a mathematical function of
    /// the current state and the live-neighbour count.
    pub open spec fn next_spec(self, neighbours: int) -> Cell {
        match self {
            Cell::Alive => if 2 <= neighbours <= 3 {
                Cell::Alive
            } else {
                Cell::Dead
            },
            Cell::Dead => if neighbours == 3 {
                Cell::Alive
            } else {
                Cell::Dead
            },
        }
    }

    /// The opposite state.
    pub open spec fn flip_spec(self) -> Cell {
        match self {
            Cell::Alive => Cell::Dead,
            Cell::Dead => Cell::Alive,
        }
    }

    /// Computes the state of this cell in the next generation: an alive cell
    /// survives with 2 or 3 live neighbours, a dead cell is born with exactly
    /// 3, and every other count leaves the cell dead.
    pub fn calculate_next_iteration(&self, neighbours: usize) -> (r: Cell)
        ensures
            r == self.next_spec(neighbours as int),
            r is Alive <==> ((*self is Alive && (neighbours == 2 || neighbours == 3)) || (*self
                is Dead && neighbours == 3)),
    {
        match self {
            Cell::Alive => match neighbours {
                2..=3 => Cell::Alive,  // survival
                _ => Cell::Dead,  // under- or overpopulation
            },
            Cell::Dead => {
                if neighbours == 3 {
                    Cell::Alive  // reproduction
                } else {
                    Cell::Dead  // remain dead
                }
            },
        }
    }

    /// Returns the opposite state.
    #[inline(always)]
    pub fn flip(&self) -> (r: Cell)
        ensures
            r == self.flip_spec(),
    {
        if let Cell::Alive = self {
            Cell::Dead
        } else {
            Cell::Alive
        }
    }
}

impl From<bool> for Cell {
    /// `true` maps to an alive cell, `false` to a dead one.
    fn from(value: bool) -> (r: Cell)
        ensures
            r == (if value {
                Cell::Alive
            } else {
                Cell::Dead
            }),
    {
        if value {
            Cell::Alive
        } else {
            Cell::Dead
        }
    }
}

impl vstd::std_specs::convert::FromSpecImpl<bool> for Cell {
    open spec fn obeys_from_spec() -> bool {
        true
    }

    open spec fn from_spec(value: bool) -> Cell {
        if value {
            Cell::Alive
        } else {
            Cell::Dead
        }
    }
}

} // verus!
