//! The locations of one graph component relative to both geometries.

use crate::location::{Location, Position};
use crate::topology_location::TopologyLocation;
use vstd::prelude::*;
use vstd::string::StringExecFns;

verus! {

/// The topological relationship of a node or an edge of the topology graph to
/// each of the two geometries being related.
///
/// A label holds one [`TopologyLocation`] for the geometry with index 0 and
/// one for the geometry with index 1. Each of the two is line-like or
/// area-like on its own. Which geometry has which index is up to the caller.
#[derive(Clone, Copy, Debug, PartialEq, Eq, Hash)]
pub struct Label {
    /// The locations relative to geometry 0 and to geometry 1.
    pub elt: [TopologyLocation; 2],
}

impl Label {
    /// The locations relative to the geometry `geom_index`.
    pub open spec fn topology(&self, geom_index: int) -> TopologyLocation {
        self.elt[geom_index]
    }

    /// The label as seen from an edge that runs the other way: both
    /// geometries' sides are exchanged.
    pub open spec fn flipped(&self) -> Label {
        Label { elt: [self.elt[0].flipped(), self.elt[1].flipped()] }
    }

    /// The label with the locations relative to geometry `geom_index`
    /// replaced by `topology`.
    pub open spec fn with_topology(&self, geom_index: int, topology: TopologyLocation) -> Label {
        if geom_index == 0 {
            Label { elt: [topology, self.elt[1]] }
        } else {
            Label { elt: [self.elt[0], topology] }
        }
    }

    /// A label that is line-like for both geometries, with the same location
    /// for each.
    pub fn new_with_on_location(location: Option<Location>) -> (r: Label)
        ensures
            r.elt[0] == (TopologyLocation::Line { on: location }),
            r.elt[1] == (TopologyLocation::Line { on: location }),
    {
        Label { elt: [TopologyLocation::new_on(location), TopologyLocation::new_on(location)] }
    }

    /// A label that is line-like for both geometries, with `location` for the
    /// geometry `geom_index` and an undetermined location for the other.
    pub fn new_with_geom_on_location(geom_index: usize, location: Option<Location>) -> (r: Label)
        ensures
            r.elt[0] == (TopologyLocation::Line {
                on: if geom_index == 0 {
                    location
                } else {
                    None
                },
            }),
            r.elt[1] == (TopologyLocation::Line {
                on: if geom_index == 1 {
                    location
                } else {
                    None
                },
            }),
    {
        Label {
            elt: [
                if geom_index == 0 {
                    TopologyLocation::new_on(location)
                } else {
                    TopologyLocation::new_on(None)
                },
                if geom_index == 1 {
                    TopologyLocation::new_on(location)
                } else {
                    TopologyLocation::new_on(None)
                },
            ],
        }
    }

    /// A label that is area-like for both geometries, with the same three
    /// locations for each.
    pub fn new_with_locations(
        on_location: Option<Location>,
        left_location: Option<Location>,
        right_location: Option<Location>,
    ) -> (r: Label)
        ensures
            r.elt[0] == (TopologyLocation::Area {
                on: on_location,
                left: left_location,
                right: right_location,
            }),
            r.elt[1] == r.elt[0],
    {
        Label {
            elt: [
                TopologyLocation::new_on_left_right(on_location, left_location, right_location),
                TopologyLocation::new_on_left_right(on_location, left_location, right_location),
            ],
        }
    }

    /// A label that is area-like for both geometries, with the three given
    /// locations for the geometry `geom_index` and undetermined locations for
    /// the other.
    pub fn new_with_geom_locations(
        geom_index: usize,
        on_location: Location,
        left_location: Location,
        right_location: Location,
    ) -> (r: Label)
        requires
            geom_index < 2,
        ensures
            r.elt[geom_index as int] == (TopologyLocation::Area {
                on: Some(on_location),
                left: Some(left_location),
                right: Some(right_location),
            }),
            r.elt[1 - geom_index] == (TopologyLocation::Area { on: None, left: None, right: None }),
    {
        let mut label = Label {
            elt: [
                TopologyLocation::new_on_left_right(None, None, None),
                TopologyLocation::new_on_left_right(None, None, None),
            ],
        };
        label.elt[geom_index].set_locations(on_location, left_location, right_location);
        label
    }

    /// Exchanges the two sides for both geometries.
    pub fn flip(&mut self)
        ensures
            *final(self) == old(self).flipped(),
            forall|g: int, p: Position|
                0 <= g < 2 ==> final(self).spec_location(g, p) == old(self).spec_location(
                    g,
                    p.opposite(),
                ),
    {
        self.elt[0].flip();
        self.elt[1].flip();
        assert(self.elt =~= old(self).flipped().elt);
    }

    /// The location at `position` relative to the geometry `geom_index`.
    pub open spec fn spec_location(&self, geom_index: int, position: Position) -> Option<
        Location,
    > {
        self.elt[geom_index].spec_get(position)
    }

    /// The location at `position` relative to the geometry `geom_index`;
    /// `None` where it is undetermined or where there is no such slot.
    pub fn location(&self, geom_index: usize, position: Position) -> (r: Option<Location>)
        requires
            geom_index < 2,
        ensures
            r == self.spec_location(geom_index as int, position),
    {
        self.elt[geom_index].get(position)
    }

    /// The location `On` the component relative to the geometry `geom_index`.
    pub fn on_location(&self, geom_index: usize) -> (r: Option<Location>)
        requires
            geom_index < 2,
        ensures
            r == self.spec_location(geom_index as int, Position::On),
    {
        self.elt[geom_index].get(Position::On)
    }

    /// Sets the location at `position` relative to the geometry `geom_index`.
    pub fn set_location(&mut self, geom_index: usize, position: Position, location: Location)
        requires
            geom_index < 2,
            old(self).elt[geom_index as int].has_slot(position),
        ensures
            *final(self) == old(self).with_topology(
                geom_index as int,
                old(self).elt[geom_index as int].with_location(position, Some(location)),
            ),
    {
        self.elt[geom_index].set_location(position, Some(location));
        assert(self.elt =~= old(self).with_topology(
            geom_index as int,
            old(self).elt[geom_index as int].with_location(position, Some(location)),
        ).elt);
    }

    /// Sets the location `On` the component relative to the geometry
    /// `geom_index`, possibly to undetermined.
    pub fn set_on_location(&mut self, geom_index: usize, location: Option<Location>)
        requires
            geom_index < 2,
        ensures
            *final(self) == old(self).with_topology(
                geom_index as int,
                old(self).elt[geom_index as int].with_location(Position::On, location),
            ),
    {
        self.elt[geom_index].set_location(Position::On, location);
        assert(self.elt =~= old(self).with_topology(
            geom_index as int,
            old(self).elt[geom_index as int].with_location(Position::On, location),
        ).elt);
    }

    /// Sets every slot relative to the geometry `geom_index` to `location`.
    pub fn set_all_locations(&mut self, geom_index: usize, location: Location)
        requires
            geom_index < 2,
        ensures
            final(self).elt[1 - geom_index] == old(self).elt[1 - geom_index],
            final(self).elt[geom_index as int].is_area() == old(self).elt[geom_index as int].is_area(),
            forall|p: Position|
                final(self).spec_location(geom_index as int, p) == if old(
                    self,
                ).elt[geom_index as int].has_slot(p) {
                    Some(location)
                } else {
                    None
                },
    {
        self.elt[geom_index].set_all_locations(location)
    }

    /// Sets every slot relative to the geometry `geom_index` that is still
    /// undetermined to `location`, and leaves the others as they are.
    pub fn set_all_locations_if_empty(&mut self, geom_index: usize, location: Location)
        requires
            geom_index < 2,
        ensures
            final(self).elt[1 - geom_index] == old(self).elt[1 - geom_index],
            final(self).elt[geom_index as int].is_area() == old(self).elt[geom_index as int].is_area(),
            forall|p: Position|
                final(self).spec_location(geom_index as int, p) == if old(
                    self,
                ).elt[geom_index as int].has_slot(p) && old(self).spec_location(
                    geom_index as int,
                    p,
                ) is None {
                    Some(location)
                } else {
                    old(self).spec_location(geom_index as int, p)
                },
    {
        self.elt[geom_index].set_all_locations_if_empty(location)
    }

    /// The number of geometries for which some location is determined.
    pub open spec fn spec_geometry_count(&self) -> nat {
        let first: nat = if self.elt[0].is_empty() {
            0
        } else {
            1
        };
        let second: nat = if self.elt[1].is_empty() {
            0
        } else {
            1
        };
        first + second
    }

    /// The number of geometries for which some location is determined: 0, 1
    /// or 2.
    pub fn geometry_count(&self) -> (count: usize)
        ensures
            count == self.spec_geometry_count(),
            count <= 2,
    {
        let mut count: usize = 0;
        if !self.elt[0].is_empty() {
            count += 1;
        }
        if !self.elt[1].is_empty() {
            count += 1;
        }
        count
    }

    /// Whether every location relative to the geometry `geom_index` is
    /// undetermined.
    pub fn is_empty(&self, geom_index: usize) -> (r: bool)
        requires
            geom_index < 2,
        ensures
            r == self.elt[geom_index as int].is_empty(),
    {
        self.elt[geom_index].is_empty()
    }

    /// Whether some slot relative to the geometry `geom_index` holds an
    /// undetermined location.
    pub fn is_any_empty(&self, geom_index: usize) -> (r: bool)
        requires
            geom_index < 2,
        ensures
            r == self.elt[geom_index as int].is_any_empty(),
    {
        self.elt[geom_index].is_any_empty()
    }

    /// Whether the label is area-like for at least one geometry.
    pub open spec fn spec_is_area(&self) -> bool {
        self.elt[0].is_area() || self.elt[1].is_area()
    }

    /// Whether the label is area-like for at least one geometry.
    #[verifier::when_used_as_spec(spec_is_area)]
    pub fn is_area(&self) -> (r: bool)
        ensures
            r == (self.elt[0].is_area() || self.elt[1].is_area()),
    {
        self.elt[0].is_area() || self.elt[1].is_area()
    }

    /// Whether the label is area-like for the geometry `geom_index`.
    pub fn is_geom_area(&self, geom_index: usize) -> (r: bool)
        requires
            geom_index < 2,
        ensures
            r == self.elt[geom_index as int].is_area(),
    {
        self.elt[geom_index].is_area()
    }

    /// Whether the label is line-like for the geometry `geom_index`.
    pub fn is_line(&self, geom_index: usize) -> (r: bool)
        requires
            geom_index < 2,
        ensures
            r == self.elt[geom_index as int].is_line(),
    {
        self.elt[geom_index].is_line()
    }

    /// The textual form of the label: `Label { A: ` and the letters for
    /// geometry 0, then `, B: ` and the letters for geometry 1, then ` }`.
    pub open spec fn rendered(&self) -> Seq<char> {
        "Label { A: "@ + self.elt[0].rendered() + ", B: "@ + self.elt[1].rendered() + " }"@
    }

    /// The textual form of the label.
    pub fn render(&self) -> (text: String)
        ensures
            text@ == self.rendered(),
    {
        let mut text = String::from_str("Label { A: ");
        let first = self.elt[0].render();
        text.append(first.as_str());
        text.append(", B: ");
        let second = self.elt[1].render();
        text.append(second.as_str());
        text.append(" }");
        text
    }
}

/// Flipping a label twice gives it back.
pub proof fn lemma_flip_is_involution(label: Label)
    ensures
        label.flipped().flipped() == label,
{
    assert(label.flipped().flipped().elt =~= label.elt);
}

/// Flipping a label exchanges, for each geometry, the locations of the two
/// sides, and keeps the location `On` the component and the arity.
pub proof fn lemma_flip_swaps_sides(label: Label, geom_index: int)
    requires
        0 <= geom_index < 2,
    ensures
        label.flipped().spec_location(geom_index, Position::On) == label.spec_location(
            geom_index,
            Position::On,
        ),
        label.flipped().spec_location(geom_index, Position::Left) == label.spec_location(
            geom_index,
            Position::Right,
        ),
        label.flipped().spec_location(geom_index, Position::Right) == label.spec_location(
            geom_index,
            Position::Left,
        ),
        label.flipped().elt[geom_index].is_area() == label.elt[geom_index].is_area(),
        label.flipped().is_area() == label.is_area(),
{
}

} // verus!
