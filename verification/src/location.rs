//! Where a point lies relative to a geometry, and on which side of an edge.

use vstd::prelude::*;

verus! {

/// The part of a geometry in which a point lies.
///
/// A location that has not been determined yet is written `Option::None`; it
/// is never folded into `Exterior`.
#[derive(Clone, Copy, Debug, PartialEq, Eq, Structural, Hash)]
pub enum Location {
    /// Inside the geometry, off its boundary.
    Interior,
    /// On the boundary of the geometry.
    Boundary,
    /// Outside the geometry.
    Exterior,
}

impl Location {
    /// Row or column of this location in the intersection matrix.
    pub open spec fn index(self) -> int {
        match self {
            Location::Interior => 0,
            Location::Boundary => 1,
            Location::Exterior => 2,
        }
    }

    /// Row or column of this location in the intersection matrix.
    pub fn to_index(self) -> (i: usize)
        ensures
            i == self.index(),
    {
        match self {
            Location::Interior => 0,
            Location::Boundary => 1,
            Location::Exterior => 2,
        }
    }
}

/// A place relative to a directed edge: on it, or to one of its sides.
#[derive(Clone, Copy, Debug, PartialEq, Eq, Structural, Hash)]
pub enum Position {
    /// On the edge itself.
    On,
    /// To the left of the edge, looking along its direction.
    Left,
    /// To the right of the edge, looking along its direction.
    Right,
}

impl Position {
    /// The position seen from an edge that runs the other way: the two sides
    /// change places, `On` stays.
    pub open spec fn opposite(self) -> Position {
        match self {
            Position::On => Position::On,
            Position::Left => Position::Right,
            Position::Right => Position::Left,
        }
    }
}

} // verus!
