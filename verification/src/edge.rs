//! An edge of the topology graph and the points at which other edges meet it.

use crate::dimensions::Dimensions;
use crate::edge_intersection::EdgeIntersection;
use crate::intersection_matrix::{raise_cell_if_valid, IntersectionMatrix};
use crate::label::Label;
use crate::location::Position;
use vstd::prelude::*;

verus! {

/// Whether the intersections stand in the order in which they lie along the
/// edge, with no two at the same place.
pub open spec fn strictly_ascending<C: Copy>(s: Seq<EdgeIntersection<C>>) -> bool {
    forall|i: int, j: int| #![trigger s[i], s[j]] 0 <= i < j < s.len() ==> s[i].is_before(&s[j])
}

/// Whether an intersection lies on an edge with `vertex_count` vertices: on
/// one of its segments, or exactly at its last vertex.
pub open spec fn lies_on<C: Copy>(e: EdgeIntersection<C>, vertex_count: nat) -> bool {
    e.segment_index + 1 < vertex_count || (e.segment_index + 1 == vertex_count && e.dist == 0)
}

/// Whether some intersection of `s` lies at the same place as `e`.
pub open spec fn holds_place<C: Copy>(s: Seq<EdgeIntersection<C>>, e: EdgeIntersection<C>) -> bool {
    exists|i: int| 0 <= i < s.len() && (#[trigger] s[i]).is_at(&e)
}

/// The number of leading intersections of `s` that come before `e`: in an
/// ascending sequence, the place at which `e` belongs.
pub open spec fn insertion_point<C: Copy>(
    s: Seq<EdgeIntersection<C>>,
    e: EdgeIntersection<C>,
) -> int
    decreases s.len(),
{
    if s.len() > 0 && s.first().is_before(&e) {
        1 + insertion_point(s.drop_first(), e)
    } else {
        0
    }
}

/// The intersections of `s` together with `e`: where `s` already has an
/// intersection at the place of `e`, that one stays and `s` is unchanged;
/// otherwise `e` is put in at the place at which it belongs.
pub open spec fn with_intersection<C: Copy>(
    s: Seq<EdgeIntersection<C>>,
    e: EdgeIntersection<C>,
) -> Seq<EdgeIntersection<C>> {
    if holds_place(s, e) {
        s
    } else {
        s.insert(insertion_point(s, e), e)
    }
}

/// In an ascending sequence, the intersections in front of the insertion
/// point of `e` are exactly those that come before `e`.
pub proof fn lemma_insertion_point_splits<C: Copy>(
    s: Seq<EdgeIntersection<C>>,
    e: EdgeIntersection<C>,
)
    requires
        strictly_ascending(s),
    ensures
        0 <= insertion_point(s, e) <= s.len(),
        forall|i: int| 0 <= i < insertion_point(s, e) ==> (#[trigger] s[i]).is_before(&e),
        forall|i: int| insertion_point(s, e) <= i < s.len() ==> !(#[trigger] s[i]).is_before(&e),
    decreases s.len(),
{
    if s.len() > 0 && s.first().is_before(&e) {
        let rest = s.drop_first();
        assert forall|i: int, j: int|
            #![trigger rest[i], rest[j]]
            0 <= i < j < rest.len() implies rest[i].is_before(&rest[j]) by {
            assert(s[i + 1].is_before(&s[j + 1]));
        }
        lemma_insertion_point_splits(rest, e);
        let p = insertion_point(rest, e);
        assert forall|i: int| 0 <= i < p + 1 implies (#[trigger] s[i]).is_before(&e) by {
            if i > 0 {
                assert(rest[i - 1].is_before(&e));
            }
        }
        assert forall|i: int| p + 1 <= i < s.len() implies !(#[trigger] s[i]).is_before(&e) by {
            assert(!rest[i - 1].is_before(&e));
        }
    } else {
        assert forall|i: int| 0 <= i < s.len() implies !(#[trigger] s[i]).is_before(&e) by {
            if i > 0 {
                assert(s[0].is_before(&s[i]));
            }
        }
    }
}

/// Putting an intersection into an ascending sequence keeps it ascending. The
/// result has an intersection at the place of `e`, keeps every intersection
/// of `s`, and is longer by one exactly if `s` had none at that place.
pub proof fn lemma_with_intersection<C: Copy>(s: Seq<EdgeIntersection<C>>, e: EdgeIntersection<C>)
    requires
        strictly_ascending(s),
    ensures
        strictly_ascending(with_intersection(s, e)),
        holds_place(with_intersection(s, e), e),
        with_intersection(s, e).len() == s.len() + if holds_place(s, e) {
            0int
        } else {
            1int
        },
        forall|i: int| 0 <= i < s.len() ==> with_intersection(s, e).contains(#[trigger] s[i]),
        forall|i: int|
            0 <= i < with_intersection(s, e).len() ==> s.contains(
                #[trigger] with_intersection(s, e)[i],
            ) || with_intersection(s, e)[i] == e,
{
    let r = with_intersection(s, e);
    if holds_place(s, e) {
        assert forall|i: int| 0 <= i < s.len() implies r.contains(#[trigger] s[i]) by {
            assert(r[i] == s[i]);
        }
        assert forall|i: int| 0 <= i < r.len() implies s.contains(#[trigger] r[i]) || r[i] == e by {
            assert(s[i] == r[i]);
        }
    } else {
        lemma_insertion_point_splits(s, e);
        let p = insertion_point(s, e);
        assert(r[p].is_at(&e));
        assert forall|i: int, j: int|
            #![trigger r[i], r[j]]
            0 <= i < j < r.len() implies r[i].is_before(&r[j]) by {
            if j < p {
                assert(s[i].is_before(&s[j]));
            } else if j == p {
                assert(s[i].is_before(&e));
            } else if i < p {
                assert(s[i].is_before(&s[j - 1]));
            } else if i == p {
                assert(!s[j - 1].is_before(&e));
                assert(!s[j - 1].is_at(&e));
            } else {
                assert(s[i - 1].is_before(&s[j - 1]));
            }
        }
        assert forall|i: int| 0 <= i < s.len() implies r.contains(#[trigger] s[i]) by {
            if i < p {
                assert(r[i] == s[i]);
            } else {
                assert(r[i + 1] == s[i]);
            }
        }
        assert forall|i: int| 0 <= i < r.len() implies s.contains(#[trigger] r[i]) || r[i] == e by {
            if i < p {
                assert(s[i] == r[i]);
            } else if i > p {
                assert(s[i - 1] == r[i]);
            }
        }
    }
}

/// An edge as the contracts see it.
pub ghost struct EdgeView<C: Copy> {
    /// The vertices of the edge, in order.
    pub coords: Seq<C>,
    /// The label of the edge.
    pub label: Label,
    /// The points at which other edges meet the edge, in order along it.
    pub intersections: Seq<EdgeIntersection<C>>,
}

impl<C: Copy> EdgeView<C> {
    /// The validity of an edge: it has a vertex, and its intersections stand
    /// in ascending order, no two at the same place, each of them on the edge.
    pub open spec fn wf(self) -> bool {
        &&& 1 <= self.coords.len() <= usize::MAX
        &&& strictly_ascending(self.intersections)
        &&& forall|i: int|
            0 <= i < self.intersections.len() ==> lies_on(
                #[trigger] self.intersections[i],
                self.coords.len(),
            )
    }

    /// The intersection that stands for the first vertex of the edge.
    pub open spec fn start_point(self) -> EdgeIntersection<C> {
        EdgeIntersection { coord: self.coords.first(), segment_index: 0, dist: 0 }
    }

    /// The intersection that stands for the last vertex of the edge.
    pub open spec fn end_point(self) -> EdgeIntersection<C> {
        EdgeIntersection {
            coord: self.coords.last(),
            segment_index: (self.coords.len() - 1) as usize,
            dist: 0,
        }
    }

    /// The edge with `e` among its intersections.
    pub open spec fn with_intersection(self, e: EdgeIntersection<C>) -> EdgeView<C> {
        EdgeView { intersections: with_intersection(self.intersections, e), ..self }
    }

    /// The edge with its two end vertices among its intersections.
    pub open spec fn with_endpoints(self) -> EdgeView<C> {
        self.with_intersection(self.start_point()).with_intersection(self.end_point())
    }

    /// Whether the intersections of the edge begin at its first vertex and
    /// end at its last.
    pub open spec fn has_endpoints(self) -> bool {
        &&& self.intersections.len() > 0
        &&& self.intersections.first().is_at(&self.start_point())
        &&& self.intersections.last().is_at(&self.end_point())
    }
}

/// Putting an intersection that lies on the edge among its intersections
/// keeps the edge valid.
pub proof fn lemma_with_intersection_wf<C: Copy>(edge: EdgeView<C>, e: EdgeIntersection<C>)
    requires
        edge.wf(),
        lies_on(e, edge.coords.len()),
    ensures
        edge.with_intersection(e).wf(),
{
    lemma_with_intersection(edge.intersections, e);
    let r = with_intersection(edge.intersections, e);
    assert forall|i: int| 0 <= i < r.len() implies lies_on(#[trigger] r[i], edge.coords.len()) by {
        if r[i] != e {
            assert(edge.intersections.contains(r[i]));
        }
    }
}

/// Adding the two end vertices to the intersections of a valid edge gives a
/// valid edge whose intersections begin at its first vertex and end at its
/// last. Each end vertex adds one intersection unless its place was taken, so
/// an edge with at least two vertices and `k` intersections, none of them at
/// an end vertex, has `k + 2` afterwards. Adding them once more changes
/// nothing.
pub proof fn lemma_with_endpoints<C: Copy>(edge: EdgeView<C>)
    requires
        edge.wf(),
    ensures
        edge.with_endpoints().wf(),
        edge.with_endpoints().has_endpoints(),
        edge.with_endpoints().coords == edge.coords,
        edge.with_endpoints().label == edge.label,
        edge.has_endpoints() ==> edge.with_endpoints() == edge,
        edge.with_endpoints().with_endpoints() == edge.with_endpoints(),
        edge.coords.len() >= 2 && !holds_place(edge.intersections, edge.start_point())
            && !holds_place(edge.intersections, edge.end_point())
            ==> edge.with_endpoints().intersections.len() == edge.intersections.len() + 2,
{
    let s = edge.intersections;
    let start = edge.start_point();
    let end = edge.end_point();
    let first = edge.with_intersection(start);
    let s1 = first.intersections;
    let second = first.with_intersection(end);
    let s2 = second.intersections;
    lemma_with_intersection(s, start);
    lemma_with_intersection_wf(edge, start);
    lemma_with_intersection(s1, end);
    lemma_with_intersection_wf(first, end);
    // The first vertex comes first.
    if holds_place(s, start) {
        let i = choose|i: int| 0 <= i < s.len() && (#[trigger] s[i]).is_at(&start);
        if i > 0 {
            assert(s[0].is_before(&s[i]));
        }
    }
    assert(s1[0].is_at(&start));
    // The last vertex comes last.
    if holds_place(s1, end) {
        let i = choose|i: int| 0 <= i < s1.len() && (#[trigger] s1[i]).is_at(&end);
        if i < s1.len() - 1 {
            assert(s1[i].is_before(&s1[s1.len() - 1]));
            assert(lies_on(s1[s1.len() - 1], edge.coords.len()));
        }
    } else {
        lemma_insertion_point_splits(s1, end);
        let p = insertion_point(s1, end);
        if p < s1.len() {
            assert(!s1[p].is_before(&end));
            assert(lies_on(s1[p], edge.coords.len()));
            assert(s1[p].is_at(&end));
        }
        assert(s2[0] == s1[0]);
    }
    assert(s2.last().is_at(&end));
    // Nothing changes where both were there.
    if edge.has_endpoints() {
        assert(s[0].is_at(&start));
        assert(s[s.len() - 1].is_at(&end));
    }
    assert(s2[0].is_at(&second.start_point()));
    assert(s2[s2.len() - 1].is_at(&second.end_point()));
    if edge.coords.len() >= 2 && !holds_place(s, start) && !holds_place(s, end) {
        if holds_place(s1, end) {
            let i = choose|i: int| 0 <= i < s1.len() && (#[trigger] s1[i]).is_at(&end);
            assert(s.contains(s1[i]) || s1[i] == start);
            if s1[i] != start {
                let j = choose|j: int| 0 <= j < s.len() && s[j] == s1[i];
                assert(s[j].is_at(&end));
            }
        }
    }
}

/// An edge of the topology graph: a chain of vertices with a label and the
/// points at which other edges meet it.
///
/// The intersections are kept in the order in which they lie along the edge,
/// and no two of them lie at the same place.
#[derive(Debug)]
pub struct Edge<C: Copy> {
    coords: Vec<C>,
    label: Label,
    edge_intersections: Vec<EdgeIntersection<C>>,
}

impl<C: Copy> View for Edge<C> {
    type V = EdgeView<C>;

    closed spec fn view(&self) -> EdgeView<C> {
        EdgeView {
            coords: self.coords@,
            label: self.label,
            intersections: self.edge_intersections@,
        }
    }
}

impl<C: Copy> Edge<C> {
    /// The validity of the edge; see [`EdgeView::wf`].
    pub open spec fn wf(&self) -> bool {
        self@.wf()
    }

    /// The edge along `coords` with the given label and no intersections.
    pub fn new(coords: Vec<C>, label: Label) -> (edge: Edge<C>)
        requires
            coords@.len() > 0,
        ensures
            edge@ == (EdgeView { coords: coords@, label, intersections: Seq::empty() }),
            edge.wf(),
    {
        assert(coords@.len() == coords.len());
        Edge { coords, label, edge_intersections: Vec::new() }
    }

    /// The label of the edge.
    pub fn label(&self) -> (label: &Label)
        ensures
            *label == self@.label,
    {
        &self.label
    }

    /// The vertices of the edge.
    pub fn coords(&self) -> (coords: &[C])
        ensures
            coords@ == self@.coords,
    {
        self.coords.as_slice()
    }

    /// The intersections of the edge, in order along it.
    pub fn edge_intersections(&self) -> (intersections: &Vec<EdgeIntersection<C>>)
        ensures
            intersections@ == self@.intersections,
    {
        &self.edge_intersections
    }

    /// Whether a point on the segment `segment_index`, at the distance `dist`
    /// along it, lies on the edge.
    pub fn admits(&self, segment_index: usize, dist: u64) -> (r: bool)
        ensures
            r == (segment_index + 1 < self@.coords.len() || (segment_index + 1
                == self@.coords.len() && dist == 0)),
    {
        let n: usize = self.coords.len();
        segment_index < n && (segment_index < n - 1 || dist == 0)
    }

    /// Puts `intersection` among the intersections of the edge, at its place
    /// along the edge. Where the edge already has an intersection at that
    /// place, it keeps that one, and the result is `false`.
    pub fn add_intersection(&mut self, intersection: EdgeIntersection<C>) -> (added: bool)
        requires
            old(self).wf(),
            lies_on(intersection, old(self)@.coords.len()),
        ensures
            final(self).wf(),
            final(self)@ == old(self)@.with_intersection(intersection),
            added == !holds_place(old(self)@.intersections, intersection),
    {
        let ghost s = self.edge_intersections@;
        let n: usize = self.edge_intersections.len();
        let mut p: usize = 0;
        while p < n
            invariant
                p <= n,
                n == s.len(),
                self.edge_intersections@ == s,
                forall|i: int| 0 <= i < p ==> (#[trigger] s[i]).is_before(&intersection),
            ensures
                p <= n,
                forall|i: int| 0 <= i < p ==> (#[trigger] s[i]).is_before(&intersection),
                p < n ==> !s[p as int].is_before(&intersection),
            decreases n - p,
        {
            if !(self.edge_intersections[p] < intersection) {
                break ;
            }
            p += 1;
        }
        proof {
            lemma_insertion_point_splits(s, intersection);
            let q = insertion_point(s, intersection);
            if q < p {
                assert(s[q].is_before(&intersection));
            }
            if p < q {
                assert(s[p as int].is_before(&intersection));
            }
            assert(q == p);
            if holds_place(s, intersection) {
                let i = choose|i: int| 0 <= i < s.len() && (#[trigger] s[i]).is_at(&intersection);
                if i < p {
                    assert(s[i].is_before(&intersection));
                }
                if i > p {
                    assert(s[p as int].is_before(&s[i]));
                }
                assert(i == p);
            }
            lemma_with_intersection(s, intersection);
        }
        if p < n && self.edge_intersections[p] == intersection {
            false
        } else {
            self.edge_intersections.insert(p, intersection);
            proof {
                let r = with_intersection(s, intersection);
                assert forall|i: int| 0 <= i < r.len() implies lies_on(
                    #[trigger] r[i],
                    self@.coords.len(),
                ) by {
                    if r[i] != intersection {
                        assert(s.contains(r[i]));
                    }
                }
            }
            true
        }
    }

    /// Puts the two end vertices of the edge among its intersections, unless
    /// they are there already: the first vertex on segment 0 at distance 0,
    /// the last vertex at distance 0 behind the last segment.
    ///
    /// Afterwards the intersections begin at the first vertex and end at the
    /// last, so that each of them but the last is followed by another.
    pub fn add_edge_intersection_list_endpoints(&mut self)
        requires
            old(self).wf(),
        ensures
            final(self).wf(),
            final(self)@ == old(self)@.with_endpoints(),
            final(self)@.has_endpoints(),
            old(self)@.has_endpoints() ==> final(self)@ == old(self)@,
    {
        proof {
            lemma_with_endpoints(self@);
        }
        let max_segment_index: usize = self.coords.len() - 1;
        let first_coord = self.coords[0];
        let max_coord = self.coords[max_segment_index];
        self.add_intersection(EdgeIntersection::new(first_coord, 0, 0));
        self.add_intersection(EdgeIntersection::new(max_coord, max_segment_index, 0));
    }

    /// Records in `intersection_matrix` what a component with the given label
    /// shows of the two geometries: the cell for the two locations `On` the
    /// component is raised to one dimension, and for a label that is
    /// area-like the cells for the two locations to its `Left` and for the two
    /// to its `Right` are raised to two dimensions. A pair of locations of
    /// which one is undetermined raises nothing.
    pub fn update_intersection_matrix(label: &Label, intersection_matrix: &mut IntersectionMatrix)
        ensures
            final(intersection_matrix)@ == updated_from_label(old(intersection_matrix)@, *label),
    {
        intersection_matrix.set_at_least_if_valid(
            label.location(0, Position::On),
            label.location(1, Position::On),
            Dimensions::OneDimensional,
        );
        if label.is_area() {
            intersection_matrix.set_at_least_if_valid(
                label.location(0, Position::Left),
                label.location(1, Position::Left),
                Dimensions::TwoDimensional,
            );
            intersection_matrix.set_at_least_if_valid(
                label.location(0, Position::Right),
                label.location(1, Position::Right),
                Dimensions::TwoDimensional,
            );
        }
    }
}

/// The cells of an intersection matrix after a component with the given
/// label has been recorded in it.
pub open spec fn updated_from_label(cells: Seq<Dimensions>, label: Label) -> Seq<Dimensions> {
    let on = raise_cell_if_valid(
        cells,
        label.spec_location(0, Position::On),
        label.spec_location(1, Position::On),
        Dimensions::OneDimensional,
    );
    if label.is_area() {
        raise_cell_if_valid(
            raise_cell_if_valid(
                on,
                label.spec_location(0, Position::Left),
                label.spec_location(1, Position::Left),
                Dimensions::TwoDimensional,
            ),
            label.spec_location(0, Position::Right),
            label.spec_location(1, Position::Right),
            Dimensions::TwoDimensional,
        )
    } else {
        on
    }
}

} // verus!
