//! The locations of one graph component relative to one geometry.

use crate::location::{Location, Position};
use vstd::prelude::*;
use vstd::string::StringExecFns;

verus! {

/// Where a node or an edge of the topology graph lies relative to one
/// geometry.
///
/// A component that comes from a point or a line has a single location, the
/// one `On` it. A component that comes from the boundary of an area has three:
/// `On` it and to its `Left` and `Right`. Each is optional: `None` stands for
/// a location that has not been determined yet. The arity is fixed by the
/// variant, so no operation can turn one kind into the other.
#[derive(Clone, Copy, Debug, PartialEq, Eq, Structural, Hash)]
pub enum TopologyLocation {
    /// A line-like or point-like component.
    Line { on: Option<Location> },
    /// An area-like component.
    Area { on: Option<Location>, left: Option<Location>, right: Option<Location> },
}

/// The letter that stands for an optional location in the textual form of a
/// label: `i`, `b`, `e`, and `_` for an undetermined one.
pub open spec fn location_char(location: Option<Location>) -> char {
    match location {
        Some(Location::Interior) => 'i',
        Some(Location::Boundary) => 'b',
        Some(Location::Exterior) => 'e',
        None => '_',
    }
}

/// The one-letter string for an optional location.
pub fn location_to_str(location: Option<Location>) -> (s: &'static str)
    ensures
        s@ == seq![location_char(location)],
{
    proof {
        reveal_strlit("i");
        reveal_strlit("b");
        reveal_strlit("e");
        reveal_strlit("_");
    }
    let s = match location {
        Some(Location::Interior) => "i",
        Some(Location::Boundary) => "b",
        Some(Location::Exterior) => "e",
        None => "_",
    };
    assert(s@ =~= seq![location_char(location)]);
    s
}

impl TopologyLocation {
    /// Whether the component has a slot for `position`: every component has
    /// `On`, only an area-like one has the two sides.
    pub open spec fn has_slot(self, position: Position) -> bool {
        position == Position::On || self is Area
    }

    /// The location at `position`; `None` where it is undetermined or where
    /// the component has no such slot.
    pub open spec fn spec_get(&self, pos: Position) -> Option<Location> {
        match *self {
            TopologyLocation::Line { on } => match pos {
                Position::On => on,
                _ => None,
            },
            TopologyLocation::Area { on, left, right } => match pos {
                Position::On => on,
                Position::Left => left,
                Position::Right => right,
            },
        }
    }

    /// The same component with the location at `position` replaced. A side of
    /// a line-like component cannot be set: the value is then unchanged.
    pub open spec fn with_location(self, position: Position, location: Option<Location>) -> Self {
        match self {
            TopologyLocation::Line { on } => match position {
                Position::On => TopologyLocation::Line { on: location },
                _ => self,
            },
            TopologyLocation::Area { on, left, right } => match position {
                Position::On => TopologyLocation::Area { on: location, left, right },
                Position::Left => TopologyLocation::Area { on, left: location, right },
                Position::Right => TopologyLocation::Area { on, left, right: location },
            },
        }
    }

    /// The component as seen from an edge that runs the other way.
    pub open spec fn flipped(self) -> Self {
        match self {
            TopologyLocation::Line { on } => self,
            TopologyLocation::Area { on, left, right } => TopologyLocation::Area {
                on,
                left: right,
                right: left,
            },
        }
    }

    /// The textual form: the letter for `On` for a line-like component, the
    /// letters for `Left`, `On` and `Right`, in this order, for an area-like one.
    pub open spec fn rendered(self) -> Seq<char> {
        match self {
            TopologyLocation::Line { on } => seq![location_char(on)],
            TopologyLocation::Area { on, left, right } => seq![
                location_char(left),
                location_char(on),
                location_char(right),
            ],
        }
    }

    /// An area-like component with the three given locations.
    pub fn new_on_left_right(
        on_location: Option<Location>,
        left_location: Option<Location>,
        right_location: Option<Location>,
    ) -> (r: TopologyLocation)
        ensures
            r == (TopologyLocation::Area {
                on: on_location,
                left: left_location,
                right: right_location,
            }),
    {
        TopologyLocation::Area { on: on_location, left: left_location, right: right_location }
    }

    /// A line-like component with the given location.
    pub fn new_on(on_location: Option<Location>) -> (r: TopologyLocation)
        ensures
            r == (TopologyLocation::Line { on: on_location }),
    {
        TopologyLocation::Line { on: on_location }
    }

    /// The location at `pos`. Asking a line-like component for a side yields
    /// `None`.
    #[verifier::when_used_as_spec(spec_get)]
    pub fn get(&self, pos: Position) -> (r: Option<Location>)
        ensures
            r == self.spec_get(pos),
            !self.has_slot(pos) ==> r is None,
    {
        match self {
            TopologyLocation::Line { on } => match pos {
                Position::On => *on,
                _ => None,
            },
            TopologyLocation::Area { on, left, right } => match pos {
                Position::On => *on,
                Position::Left => *left,
                Position::Right => *right,
            },
        }
    }

    /// Whether every location of the component is undetermined.
    pub open spec fn spec_is_empty(&self) -> bool {
        forall|p: Position| self.spec_get(p) is None
    }

    /// Whether every location of the component is undetermined.
    #[verifier::when_used_as_spec(spec_is_empty)]
    pub fn is_empty(&self) -> (r: bool)
        ensures
            r == self.spec_is_empty(),
    {
        let r = match self {
            TopologyLocation::Line { on } => on.is_none(),
            TopologyLocation::Area { on, left, right } => on.is_none() && left.is_none()
                && right.is_none(),
        };
        proof {
            if !r {
                assert(self.spec_get(Position::On) is Some || self.spec_get(Position::Left) is Some
                    || self.spec_get(Position::Right) is Some);
            }
        }
        r
    }

    /// Whether some slot of the component holds an undetermined location.
    pub open spec fn spec_is_any_empty(&self) -> bool {
        exists|p: Position| self.has_slot(p) && self.spec_get(p) is None
    }

    /// Whether some slot of the component holds an undetermined location.
    #[verifier::when_used_as_spec(spec_is_any_empty)]
    pub fn is_any_empty(&self) -> (r: bool)
        ensures
            r == self.spec_is_any_empty(),
    {
        let r = match self {
            TopologyLocation::Line { on } => on.is_none(),
            TopologyLocation::Area { on, left, right } => on.is_none() || left.is_none()
                || right.is_none(),
        };
        proof {
            if r {
                let p = if self.spec_get(Position::On) is None {
                    Position::On
                } else if self.spec_get(Position::Left) is None {
                    Position::Left
                } else {
                    Position::Right
                };
                assert(self.has_slot(p) && self.spec_get(p) is None);
            }
        }
        r
    }

    /// Whether the component is area-like.
    pub open spec fn spec_is_area(&self) -> bool {
        self is Area
    }

    /// Whether the component is area-like.
    #[verifier::when_used_as_spec(spec_is_area)]
    pub fn is_area(&self) -> (r: bool)
        ensures
            r == (self is Area),
    {
        match self {
            TopologyLocation::Line { .. } => false,
            TopologyLocation::Area { .. } => true,
        }
    }

    /// Whether the component is line-like.
    pub open spec fn spec_is_line(&self) -> bool {
        self is Line
    }

    /// Whether the component is line-like.
    #[verifier::when_used_as_spec(spec_is_line)]
    pub fn is_line(&self) -> (r: bool)
        ensures
            r == (self is Line),
    {
        match self {
            TopologyLocation::Line { .. } => true,
            TopologyLocation::Area { .. } => false,
        }
    }

    /// Exchanges the two sides. `On` stays, and a line-like component, which
    /// has no sides, is left as it is.
    pub fn flip(&mut self)
        ensures
            *final(self) == old(self).flipped(),
            final(self).is_area() == old(self).is_area(),
            forall|p: Position| final(self).spec_get(p) == old(self).spec_get(p.opposite()),
    {
        match *self {
            TopologyLocation::Line { .. } => {},
            TopologyLocation::Area { on, left, right } => {
                *self = TopologyLocation::Area { on, left: right, right: left };
            },
        }
    }

    /// Sets every slot to `location`.
    pub fn set_all_locations(&mut self, location: Location)
        ensures
            final(self).is_area() == old(self).is_area(),
            forall|p: Position|
                final(self).spec_get(p) == if old(self).has_slot(p) {
                    Some(location)
                } else {
                    None
                },
    {
        match *self {
            TopologyLocation::Line { .. } => {
                *self = TopologyLocation::Line { on: Some(location) };
            },
            TopologyLocation::Area { .. } => {
                *self = TopologyLocation::Area {
                    on: Some(location),
                    left: Some(location),
                    right: Some(location),
                };
            },
        }
    }

    /// Sets every slot that is still undetermined to `location`, and leaves
    /// the others as they are.
    pub fn set_all_locations_if_empty(&mut self, location: Location)
        ensures
            final(self).is_area() == old(self).is_area(),
            forall|p: Position|
                final(self).spec_get(p) == if old(self).has_slot(p) && old(self).spec_get(p)
                    is None {
                    Some(location)
                } else {
                    old(self).spec_get(p)
                },
    {
        match *self {
            TopologyLocation::Line { on } => {
                if on.is_none() {
                    *self = TopologyLocation::Line { on: Some(location) };
                }
            },
            TopologyLocation::Area { on, left, right } => {
                *self = TopologyLocation::Area {
                    on: if on.is_none() { Some(location) } else { on },
                    left: if left.is_none() { Some(location) } else { left },
                    right: if right.is_none() { Some(location) } else { right },
                };
            },
        }
    }

    /// Replaces the location at `position`.
    pub fn set_location(&mut self, position: Position, location: Option<Location>)
        requires
            old(self).has_slot(position),
        ensures
            *final(self) == old(self).with_location(position, location),
            final(self).is_area() == old(self).is_area(),
            forall|p: Position|
                final(self).spec_get(p) == if p == position {
                    location
                } else {
                    old(self).spec_get(p)
                },
    {
        match *self {
            TopologyLocation::Line { .. } => {
                *self = TopologyLocation::Line { on: location };
            },
            TopologyLocation::Area { on, left, right } => {
                *self = match position {
                    Position::On => TopologyLocation::Area { on: location, left, right },
                    Position::Left => TopologyLocation::Area { on, left: location, right },
                    Position::Right => TopologyLocation::Area { on, left, right: location },
                };
            },
        }
    }

    /// Sets the location `On` the component.
    pub fn set_on_location(&mut self, location: Location)
        ensures
            *final(self) == old(self).with_location(Position::On, Some(location)),
            final(self).is_area() == old(self).is_area(),
            forall|p: Position|
                final(self).spec_get(p) == if p == Position::On {
                    Some(location)
                } else {
                    old(self).spec_get(p)
                },
    {
        self.set_location(Position::On, Some(location));
    }

    /// Sets the three locations of an area-like component.
    pub fn set_locations(&mut self, on: Location, left: Location, right: Location)
        requires
            old(self).is_area(),
        ensures
            *final(self) == (TopologyLocation::Area {
                on: Some(on),
                left: Some(left),
                right: Some(right),
            }),
    {
        *self = TopologyLocation::Area { on: Some(on), left: Some(left), right: Some(right) };
    }

    /// The textual form of the component, one letter for each slot.
    pub fn render(&self) -> (text: String)
        ensures
            text@ == self.rendered(),
    {
        let mut text = String::new();
        match self {
            TopologyLocation::Line { on } => {
                text.append(location_to_str(*on));
            },
            TopologyLocation::Area { on, left, right } => {
                text.append(location_to_str(*left));
                text.append(location_to_str(*on));
                text.append(location_to_str(*right));
            },
        }
        assert(text@ =~= self.rendered());
        text
    }
}

/// Flipping twice gives the component back.
pub proof fn lemma_flip_is_involution(t: TopologyLocation)
    ensures
        t.flipped().flipped() == t,
{
}

/// Flipping exchanges the locations of the two sides, keeps the location `On`
/// the component, and keeps its arity.
pub proof fn lemma_flip_swaps_sides(t: TopologyLocation)
    ensures
        t.flipped().spec_get(Position::On) == t.spec_get(Position::On),
        t.flipped().spec_get(Position::Left) == t.spec_get(Position::Right),
        t.flipped().spec_get(Position::Right) == t.spec_get(Position::Left),
        t.flipped().is_area() == t.is_area(),
{
}

} // verus!
