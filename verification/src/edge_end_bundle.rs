//! The edge ends that leave a node in one direction, and their common label.

use crate::boundary_node_rule::{determine_boundary, spec_determine_boundary, Mod2BoundaryNodeRule};
use crate::edge::{updated_from_label, Edge};
use crate::edge_end::EdgeEnd;
use crate::intersection_matrix::IntersectionMatrix;
use crate::label::Label;
use crate::location::{Location, Position};
use crate::topology_location::TopologyLocation;
use vstd::prelude::*;

verus! {

/// Whether some member of the bundle has a label that is area-like.
pub open spec fn any_area<C: Copy>(ends: Seq<EdgeEnd<C>>) -> bool {
    exists|i: int| 0 <= i < ends.len() && (#[trigger] ends[i]).label.is_area()
}

/// The test for a member that lies on the boundary of the geometry
/// `geom_index`.
pub open spec fn is_on_boundary<C: Copy>(geom_index: int) -> spec_fn(EdgeEnd<C>) -> bool {
    |e: EdgeEnd<C>| e.label.spec_location(geom_index, Position::On) == Some(Location::Boundary)
}

/// The number of members that lie on the boundary of the geometry
/// `geom_index`. Members that coincide are counted each.
pub open spec fn count_on_boundary<C: Copy>(ends: Seq<EdgeEnd<C>>, geom_index: int) -> nat {
    ends.filter(is_on_boundary(geom_index)).len()
}

/// Whether some member lies in the interior of the geometry `geom_index`.
pub open spec fn any_interior<C: Copy>(ends: Seq<EdgeEnd<C>>, geom_index: int) -> bool {
    exists|i: int|
        0 <= i < ends.len() && (#[trigger] ends[i]).label.spec_location(geom_index, Position::On)
            == Some(Location::Interior)
}

/// The location `On` the bundle relative to the geometry `geom_index`.
///
/// Where members lie on the boundary of the geometry, their number decides
/// under the mod-2 rule, whether or not other members lie in its interior.
/// Where none does and some member lies in the interior, it is `Interior`.
/// Otherwise it is undetermined.
pub open spec fn on_location<C: Copy>(ends: Seq<EdgeEnd<C>>, geom_index: int) -> Option<Location> {
    if count_on_boundary(ends, geom_index) > 0 {
        Some(spec_determine_boundary(&Mod2BoundaryNodeRule, count_on_boundary(ends, geom_index)))
    } else if any_interior(ends, geom_index) {
        Some(Location::Interior)
    } else {
        None
    }
}

/// Whether a member tells on which side of the geometry `geom_index` its side
/// `side` lies: its label is area-like and holds `Interior` or `Exterior`
/// there.
pub open spec fn observes_side<C: Copy>(e: EdgeEnd<C>, geom_index: int, side: Position) -> bool {
    e.label.is_area() && (e.label.spec_location(geom_index, side) == Some(Location::Interior)
        || e.label.spec_location(geom_index, side) == Some(Location::Exterior))
}

/// The location at the side `side` of the bundle relative to the geometry
/// `geom_index`: what the last member that tells says, and undetermined where
/// no member tells.
pub open spec fn side_location<C: Copy>(
    ends: Seq<EdgeEnd<C>>,
    geom_index: int,
    side: Position,
) -> Option<Location>
    decreases ends.len(),
{
    if ends.len() == 0 {
        None
    } else if observes_side(ends.last(), geom_index, side) {
        ends.last().label.spec_location(geom_index, side)
    } else {
        side_location(ends.drop_last(), geom_index, side)
    }
}

/// The locations of the bundle relative to the geometry `geom_index`, for a
/// bundle of the given arity.
pub open spec fn bundle_topology<C: Copy>(
    ends: Seq<EdgeEnd<C>>,
    geom_index: int,
    is_area: bool,
) -> TopologyLocation {
    if is_area {
        TopologyLocation::Area {
            on: on_location(ends, geom_index),
            left: side_location(ends, geom_index, Position::Left),
            right: side_location(ends, geom_index, Position::Right),
        }
    } else {
        TopologyLocation::Line { on: on_location(ends, geom_index) }
    }
}

/// The label of a bundle with the given members. It is area-like for both
/// geometries if some member has an area-like label, and line-like for both
/// otherwise.
pub open spec fn bundle_label<C: Copy>(ends: Seq<EdgeEnd<C>>) -> Label {
    Label {
        elt: [
            bundle_topology(ends, 0, any_area(ends)),
            bundle_topology(ends, 1, any_area(ends)),
        ],
    }
}

/// The side location of a bundle is that of the last member that tells.
/// Hence it is undetermined exactly if no member tells; it is `Interior` if
/// some member says so and none says `Exterior`, and `Exterior` if some member
/// says so and none says `Interior`.
pub proof fn lemma_side_location_is_last_observation<C: Copy>(
    ends: Seq<EdgeEnd<C>>,
    geom_index: int,
    side: Position,
)
    ensures
        side_location(ends, geom_index, side) is None <==> forall|i: int|
            0 <= i < ends.len() ==> !observes_side(#[trigger] ends[i], geom_index, side),
        side_location(ends, geom_index, side) matches Some(location) ==> exists|i: int|
            {
                &&& 0 <= i < ends.len()
                &&& observes_side(#[trigger] ends[i], geom_index, side)
                &&& ends[i].label.spec_location(geom_index, side) == Some(location)
                &&& forall|j: int|
                    i < j < ends.len() ==> !observes_side(#[trigger] ends[j], geom_index, side)
            },
        side_location(ends, geom_index, side) == Some(Location::Interior) || side_location(
            ends,
            geom_index,
            side,
        ) == Some(Location::Exterior) || side_location(ends, geom_index, side) is None,
    decreases ends.len(),
{
    if ends.len() > 0 {
        let rest = ends.drop_last();
        lemma_side_location_is_last_observation(rest, geom_index, side);
        if observes_side(ends.last(), geom_index, side) {
            let i = ends.len() - 1;
            assert(observes_side(ends[i], geom_index, side));
        } else {
            assert forall|i: int| 0 <= i < rest.len() implies rest[i] == ends[i] by {}
            if side_location(rest, geom_index, side) is Some {
                let location = side_location(rest, geom_index, side).unwrap();
                let i = choose|i: int|
                    {
                        &&& 0 <= i < rest.len()
                        &&& observes_side(#[trigger] rest[i], geom_index, side)
                        &&& rest[i].label.spec_location(geom_index, side) == Some(location)
                        &&& forall|j: int|
                            i < j < rest.len() ==> !observes_side(
                                #[trigger] rest[j],
                                geom_index,
                                side,
                            )
                    };
                assert(observes_side(ends[i], geom_index, side));
                assert forall|j: int| i < j < ends.len() implies !observes_side(
                    #[trigger] ends[j],
                    geom_index,
                    side,
                ) by {
                    if j < rest.len() {
                        assert(!observes_side(rest[j], geom_index, side));
                    }
                }
            } else {
                assert forall|i: int| 0 <= i < ends.len() implies !observes_side(
                    #[trigger] ends[i],
                    geom_index,
                    side,
                ) by {
                    if i < rest.len() {
                        assert(!observes_side(rest[i], geom_index, side));
                    }
                }
            }
        }
    }
}

/// A bundle as the contracts see it.
pub ghost struct BundleView<C: Copy> {
    /// The node that the members leave.
    pub coordinate: C,
    /// The label of the bundle, once it has been computed.
    pub label: Option<Label>,
    /// The members, in the order in which they were put in.
    pub edge_ends: Seq<EdgeEnd<C>>,
}

/// The edge ends that leave one node in one direction, with the label that
/// they have in common once it has been computed.
///
/// A bundle is made empty, filled with [`insert`](Self::insert), and then
/// labelled with [`compute_label`](Self::compute_label).
#[derive(Debug)]
pub struct MaybeLabeledEdgeEndBundle<C: Copy> {
    coordinate: C,
    label: Option<Label>,
    edge_ends: Vec<EdgeEnd<C>>,
}

impl<C: Copy> View for MaybeLabeledEdgeEndBundle<C> {
    type V = BundleView<C>;

    closed spec fn view(&self) -> BundleView<C> {
        BundleView { coordinate: self.coordinate, label: self.label, edge_ends: self.edge_ends@ }
    }
}

impl<C: Copy> MaybeLabeledEdgeEndBundle<C> {
    /// An empty bundle at `coordinate`, without a label.
    pub fn new(coordinate: C) -> (bundle: Self)
        ensures
            bundle@ == (BundleView { coordinate, label: None, edge_ends: Seq::empty() }),
    {
        Self { coordinate, edge_ends: Vec::new(), label: None }
    }

    /// The label of the bundle, where it has been computed.
    pub fn label(&self) -> (label: Option<&Label>)
        ensures
            label is Some <==> self@.label is Some,
            label matches Some(l) ==> *l == self@.label.unwrap(),
    {
        self.label.as_ref()
    }

    /// The label of the bundle, where it has been computed, to be changed in
    /// place.
    pub fn label_mut(&mut self) -> (label: Option<&mut Label>)
        ensures
            label is Some <==> old(self)@.label is Some,
            label matches Some(l) ==> *l == old(self)@.label.unwrap() && final(self)@ == (BundleView {
                label: Some(*final(l)),
                ..old(self)@
            }),
            label is None ==> final(self)@ == old(self)@,
    {
        self.label.as_mut()
    }

    /// The node that the members leave.
    pub fn coordinate(&self) -> (coordinate: C)
        ensures
            coordinate == self@.coordinate,
    {
        self.coordinate
    }

    /// The members, in the order in which they were put in.
    pub fn edge_ends(&self) -> (edge_ends: &Vec<EdgeEnd<C>>)
        ensures
            edge_ends@ == self@.edge_ends,
    {
        &self.edge_ends
    }

    /// Puts `edge_end` into the bundle, behind the members that are there.
    /// Members that coincide are kept each: their number counts.
    pub fn insert(&mut self, edge_end: EdgeEnd<C>)
        ensures
            final(self)@ == (BundleView {
                edge_ends: old(self)@.edge_ends.push(edge_end),
                ..old(self)@
            }),
    {
        self.edge_ends.push(edge_end);
    }

    /// Computes the label of the bundle from its members and keeps it.
    pub fn compute_label(&mut self)
        ensures
            final(self)@ == (BundleView {
                label: Some(bundle_label(old(self)@.edge_ends)),
                ..old(self)@
            }),
    {
        let mut is_area = false;
        let n: usize = self.edge_ends.len();
        let mut k: usize = 0;
        while k < n
            invariant
                k <= n,
                n == self.edge_ends@.len(),
                *self == *old(self),
                is_area == any_area(self.edge_ends@.take(k as int)),
            decreases n - k,
        {
            let ghost before = self.edge_ends@.take(k as int);
            let ghost after = self.edge_ends@.take(k + 1);
            if self.edge_ends[k].label().is_area() {
                is_area = true;
                assert(after[k as int].label.is_area());
            } else {
                proof {
                    if any_area(after) {
                        let i = choose|i: int|
                            0 <= i < after.len() && (#[trigger] after[i]).label.is_area();
                        assert(before[i].label.is_area());
                    }
                    if any_area(before) {
                        let i = choose|i: int|
                            0 <= i < before.len() && (#[trigger] before[i]).label.is_area();
                        assert(after[i].label.is_area());
                    }
                }
            }
            k += 1;
        }
        assert(self.edge_ends@.take(n as int) =~= self.edge_ends@);

        if is_area {
            self.label = Some(Label::new_with_locations(None, None, None));
        } else {
            self.label = Some(Label::new_with_on_location(None));
        }

        let mut i: usize = 0;
        while i < 2
            invariant
                i <= 2,
                self.coordinate == old(self).coordinate,
                self.edge_ends@ == old(self).edge_ends@,
                is_area == any_area(self.edge_ends@),
                self.label is Some,
                forall|g: int|
                    0 <= g < i ==> #[trigger] self.label.unwrap().elt[g] == bundle_topology(
                        self.edge_ends@,
                        g,
                        is_area,
                    ),
                forall|g: int|
                    i <= g < 2 ==> #[trigger] self.label.unwrap().elt[g] == if is_area {
                        TopologyLocation::Area { on: None, left: None, right: None }
                    } else {
                        TopologyLocation::Line { on: None }
                    },
            decreases 2 - i,
        {
            self.compute_label_on(i);
            if is_area {
                self.compute_label_sides(i);
            }
            i += 1;
        }
        assert(self.label.unwrap().elt =~= bundle_label(self.edge_ends@).elt);
    }

    /// Sets the location `On` the bundle relative to the geometry
    /// `geom_index` to what its members give; see [`on_location`]. A bundle
    /// without a label is left as it is.
    pub fn compute_label_on(&mut self, geom_index: usize)
        requires
            geom_index < 2,
        ensures
            final(self)@ == (BundleView {
                label: match old(self)@.label {
                    Some(label) => Some(
                        label.with_topology(
                            geom_index as int,
                            label.elt[geom_index as int].with_location(
                                Position::On,
                                on_location(old(self)@.edge_ends, geom_index as int),
                            ),
                        ),
                    ),
                    None => None,
                },
                ..old(self)@
            }),
    {
        let mut boundary_count: usize = 0;
        let mut found_interior = false;
        let n: usize = self.edge_ends.len();
        let mut k: usize = 0;
        while k < n
            invariant
                k <= n,
                n == self.edge_ends@.len(),
                geom_index < 2,
                *self == *old(self),
                boundary_count == count_on_boundary(self.edge_ends@.take(k as int), geom_index as int),
                boundary_count <= k,
                found_interior == any_interior(self.edge_ends@.take(k as int), geom_index as int),
            decreases n - k,
        {
            let ghost before = self.edge_ends@.take(k as int);
            let ghost after = self.edge_ends@.take(k + 1);
            proof {
                assert(after.drop_last() =~= before);
                reveal_with_fuel(Seq::filter, 2);
            }
            match self.edge_ends[k].label().on_location(geom_index) {
                Some(Location::Boundary) => {
                    boundary_count += 1;
                },
                Some(Location::Interior) => {
                    found_interior = true;
                    assert(after[k as int].label.spec_location(geom_index as int, Position::On)
                        == Some(Location::Interior));
                },
                None | Some(Location::Exterior) => {},
            }
            proof {
                if self.edge_ends@[k as int].label.spec_location(geom_index as int, Position::On)
                    != Some(Location::Interior) {
                    if any_interior(after, geom_index as int) {
                        let i = choose|i: int|
                            0 <= i < after.len() && (#[trigger] after[i]).label.spec_location(
                                geom_index as int,
                                Position::On,
                            ) == Some(Location::Interior);
                        assert(before[i].label.spec_location(geom_index as int, Position::On)
                            == Some(Location::Interior));
                    }
                    if any_interior(before, geom_index as int) {
                        let i = choose|i: int|
                            0 <= i < before.len() && (#[trigger] before[i]).label.spec_location(
                                geom_index as int,
                                Position::On,
                            ) == Some(Location::Interior);
                        assert(after[i].label.spec_location(geom_index as int, Position::On)
                            == Some(Location::Interior));
                    }
                }
            }
            k += 1;
        }
        assert(self.edge_ends@.take(n as int) =~= self.edge_ends@);

        let mut location = None;
        if found_interior {
            location = Some(Location::Interior);
        }
        // members on the boundary decide, also where others lie in the interior
        if boundary_count > 0 {
            location = Some(determine_boundary(&Mod2BoundaryNodeRule, boundary_count));
        }
        match self.label.as_mut() {
            Some(label) => {
                label.set_on_location(geom_index, location);
            },
            None => {},
        }
    }

    /// Sets the locations at the two sides of the bundle relative to the
    /// geometry `geom_index` to what its members give, first `Left`, then
    /// `Right`; see [`compute_label_side`](Self::compute_label_side).
    pub fn compute_label_sides(&mut self, geom_index: usize)
        requires
            geom_index < 2,
            old(self)@.label matches Some(label) ==> label.elt[geom_index as int].is_area(),
        ensures
            final(self)@ == (BundleView {
                label: match old(self)@.label {
                    Some(label) => Some(
                        label.with_topology(
                            geom_index as int,
                            with_side(
                                with_side(
                                    label.elt[geom_index as int],
                                    Position::Left,
                                    side_location(
                                        old(self)@.edge_ends,
                                        geom_index as int,
                                        Position::Left,
                                    ),
                                ),
                                Position::Right,
                                side_location(
                                    old(self)@.edge_ends,
                                    geom_index as int,
                                    Position::Right,
                                ),
                            ),
                        ),
                    ),
                    None => None,
                },
                ..old(self)@
            }),
    {
        self.compute_label_side(geom_index, Position::Left);
        self.compute_label_side(geom_index, Position::Right);
        proof {
            if self.label is Some {
                let label = old(self)@.label.unwrap();
                let expected = label.with_topology(
                    geom_index as int,
                    with_side(
                        with_side(
                            label.elt[geom_index as int],
                            Position::Left,
                            side_location(old(self)@.edge_ends, geom_index as int, Position::Left),
                        ),
                        Position::Right,
                        side_location(old(self)@.edge_ends, geom_index as int, Position::Right),
                    ),
                );
                assert(self.label.unwrap().elt =~= expected.elt);
            }
        }
    }

    /// Sets the location at the side `side` of the bundle relative to the
    /// geometry `geom_index` to what the last member that tells says; see
    /// [`side_location`]. Where no member tells, and for a bundle without a
    /// label, the bundle is left as it is.
    pub fn compute_label_side(&mut self, geom_index: usize, side: Position)
        requires
            geom_index < 2,
            old(self)@.label matches Some(label) ==> label.elt[geom_index as int].has_slot(side),
        ensures
            final(self)@ == (BundleView {
                label: match old(self)@.label {
                    Some(label) => Some(
                        label.with_topology(
                            geom_index as int,
                            with_side(
                                label.elt[geom_index as int],
                                side,
                                side_location(old(self)@.edge_ends, geom_index as int, side),
                            ),
                        ),
                    ),
                    None => None,
                },
                ..old(self)@
            }),
    {
        let mut location = None;
        let n: usize = self.edge_ends.len();
        let mut k: usize = 0;
        while k < n
            invariant
                k <= n,
                n == self.edge_ends@.len(),
                geom_index < 2,
                *self == *old(self),
                location == side_location(self.edge_ends@.take(k as int), geom_index as int, side),
            decreases n - k,
        {
            proof {
                assert(self.edge_ends@.take(k + 1).drop_last() =~= self.edge_ends@.take(k as int));
            }
            let edge_end = &self.edge_ends[k];
            if edge_end.label().is_area() {
                match edge_end.label().location(geom_index, side) {
                    Some(Location::Interior) => {
                        location = Some(Location::Interior);
                    },
                    Some(Location::Exterior) => {
                        location = Some(Location::Exterior);
                    },
                    None | Some(Location::Boundary) => {},
                }
            }
            k += 1;
        }
        assert(self.edge_ends@.take(n as int) =~= self.edge_ends@);

        if let Some(location) = location {
            match self.label.as_mut() {
                Some(label) => {
                    label.set_location(geom_index, side, location);
                },
                None => {},
            }
        } else {
            proof {
                if self.label is Some {
                    let label = self.label.unwrap();
                    assert(label.elt =~= label.with_topology(
                        geom_index as int,
                        label.elt[geom_index as int],
                    ).elt);
                }
            }
        }
    }

    /// Records the label of the bundle in `intersection_matrix`; see
    /// [`Edge::update_intersection_matrix`]. The label must have been
    /// computed.
    pub fn update_intersection_matrix(&self, intersection_matrix: &mut IntersectionMatrix)
        requires
            self@.label is Some,
        ensures
            final(intersection_matrix)@ == updated_from_label(
                old(intersection_matrix)@,
                self@.label.unwrap(),
            ),
    {
        match self.label() {
            Some(label) => {
                Edge::<C>::update_intersection_matrix(label, intersection_matrix);
            },
            None => {},
        }
    }
}

/// The locations `topology` with the location at `side` set to `location`
/// where that is determined, and unchanged where it is not.
pub open spec fn with_side(
    topology: TopologyLocation,
    side: Position,
    location: Option<Location>,
) -> TopologyLocation {
    match location {
        Some(l) => topology.with_location(side, Some(l)),
        None => topology,
    }
}

} // verus!
