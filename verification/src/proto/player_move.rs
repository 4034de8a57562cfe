use vstd::prelude::*;

verus! {

/// The steering directions of a `PlayerMove`.
#[derive(Clone, Copy, Debug, PartialEq, Eq, Structural)]
pub enum Direction {
    Top,
    Left,
    Bottom,
    Right,
}

impl Direction {
    /// The number that stands for the direction in `PlayerMove::direction`.
    pub open spec fn code(self) -> i32 {
        match self {
            Direction::Top => 0,
            Direction::Left => 1,
            Direction::Bottom => 2,
            Direction::Right => 3,
        }
    }
}

} // verus!
