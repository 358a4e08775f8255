//! The flow axis along which a container stacks its children.

use vstd::prelude::*;

verus! {

/// The axis along which a container accumulates its children: under
/// `Vertical` children stack downward, under `Horizontal` rightward.
#[derive(Clone, Copy, Debug, PartialEq, Eq, Structural)]
pub enum Direction {
    Horizontal,
    Vertical,
}

impl Direction {
    /// Whether this is the horizontal axis.
    pub fn is_horizontal(&self) -> (r: bool)
        ensures
            r == (*self is Horizontal),
    {
        match self {
            Direction::Horizontal => true,
            Direction::Vertical => false,
        }
    }

    /// Whether this is the vertical axis.
    pub fn is_vertical(&self) -> (r: bool)
        ensures
            r == (*self is Vertical),
    {
        match self {
            Direction::Horizontal => false,
            Direction::Vertical => true,
        }
    }
}

} // verus!
