//! Cutting edges into edge ends at their intersections.

use crate::edge::{Edge, EdgeView};
use crate::edge_end::EdgeEnd;
use crate::edge_intersection::EdgeIntersection;
use std::marker::PhantomData;
use vstd::prelude::*;

verus! {

/// The index of the vertex that precedes the intersection `curr` along the
/// edge: the first vertex of its segment, or the one before that where the
/// intersection lies exactly on the first vertex of its segment. It is `-1`
/// for an intersection at the very start of the edge, which has no
/// predecessor.
pub open spec fn previous_vertex<C: Copy>(curr: EdgeIntersection<C>) -> int {
    if curr.dist == 0 {
        curr.segment_index - 1
    } else {
        curr.segment_index as int
    }
}

/// The edge end that leads from the intersection `curr` back along the edge,
/// if there is one.
///
/// It leads to the vertex that precedes `curr`, or to the preceding
/// intersection `prev` where that lies at or behind this vertex. Since it runs
/// against the edge, it carries the label of the edge with the sides
/// exchanged. There is none at the start of the edge.
pub open spec fn end_for_prev<C: Copy>(
    edge: EdgeView<C>,
    curr: EdgeIntersection<C>,
    prev: Option<EdgeIntersection<C>>,
) -> Option<EdgeEnd<C>> {
    let i_prev = previous_vertex(curr);
    if i_prev < 0 {
        None
    } else {
        let coord_prev = if prev is Some && prev.unwrap().segment_index >= i_prev {
            prev.unwrap().coord
        } else {
            edge.coords[i_prev]
        };
        Some(EdgeEnd { coord_0: curr.coord, coord_1: coord_prev, label: edge.label.flipped() })
    }
}

/// The edge end that leads from the intersection `curr` on along the edge, if
/// there is one.
///
/// It leads to the vertex that ends the segment of `curr`, or to the following
/// intersection `next` where that lies on the same segment, and carries the
/// label of the edge. There is none where the edge has neither a further
/// vertex nor a further intersection.
pub open spec fn end_for_next<C: Copy>(
    edge: EdgeView<C>,
    curr: EdgeIntersection<C>,
    next: Option<EdgeIntersection<C>>,
) -> Option<EdgeEnd<C>> {
    let i_next = curr.segment_index + 1;
    if i_next >= edge.coords.len() && next is None {
        None
    } else {
        let coord_next = if next is Some && next.unwrap().segment_index == curr.segment_index {
            next.unwrap().coord
        } else {
            edge.coords[i_next]
        };
        Some(EdgeEnd { coord_0: curr.coord, coord_1: coord_next, label: edge.label })
    }
}

/// No element for `None`, the one element for `Some`.
pub open spec fn optional<T>(o: Option<T>) -> Seq<T> {
    match o {
        Some(t) => seq![t],
        None => Seq::empty(),
    }
}

/// The value behind an optional reference.
pub open spec fn pointee<T>(o: Option<&T>) -> Option<T> {
    match o {
        Some(t) => Some(*t),
        None => None,
    }
}

/// The edge ends at the intersection `k` of the edge: the one back along the
/// edge, then the one on along the edge, as far as they exist.
pub open spec fn ends_at<C: Copy>(edge: EdgeView<C>, k: int) -> Seq<EdgeEnd<C>> {
    let prev = if k > 0 {
        Some(edge.intersections[k - 1])
    } else {
        None
    };
    let next = if k + 1 < edge.intersections.len() {
        Some(edge.intersections[k + 1])
    } else {
        None
    };
    optional(end_for_prev(edge, edge.intersections[k], prev)) + optional(
        end_for_next(edge, edge.intersections[k], next),
    )
}

/// The edge ends at the first `n` intersections of the edge, in the order of
/// the intersections.
pub open spec fn ends_up_to<C: Copy>(edge: EdgeView<C>, n: nat) -> Seq<EdgeEnd<C>>
    decreases n,
{
    if n == 0 {
        Seq::empty()
    } else {
        ends_up_to(edge, (n - 1) as nat) + ends_at(edge, n - 1)
    }
}

/// The edge ends of an edge: those at each of its intersections, in the order
/// of the intersections.
pub open spec fn edge_ends<C: Copy>(edge: EdgeView<C>) -> Seq<EdgeEnd<C>> {
    ends_up_to(edge, edge.intersections.len())
}

/// The edge ends of the first `n` edges, edge after edge.
pub open spec fn ends_of_edges<C: Copy>(edges: Seq<Edge<C>>, n: nat) -> Seq<EdgeEnd<C>>
    decreases n,
{
    if n == 0 {
        Seq::empty()
    } else {
        ends_of_edges(edges, (n - 1) as nat) + edge_ends(edges[n - 1]@)
    }
}

/// The number of edge ends at the first `n` of the `m` intersections of an
/// edge whose intersections begin and end at its end vertices.
spec fn count_up_to(n: nat, m: nat) -> int {
    if n == 0 {
        0
    } else if n < m {
        2 * n - 1
    } else {
        2 * m - 2
    }
}

proof fn lemma_edge_end_count_up_to<C: Copy>(edge: EdgeView<C>, n: nat)
    requires
        edge.wf(),
        edge.has_endpoints(),
        n <= edge.intersections.len(),
    ensures
        ends_up_to(edge, n).len() == count_up_to(n, edge.intersections.len()),
    decreases n,
{
    if n > 0 {
        lemma_edge_end_count_up_to(edge, (n - 1) as nat);
        let s = edge.intersections;
        let k = n - 1;
        let m = s.len();
        if k > 0 {
            assert(s[0].is_before(&s[k]));
        }
        if k + 1 < m {
            assert(s[k].is_before(&s[m - 1]));
        }
    }
}

/// An edge whose intersections begin and end at its end vertices is cut into
/// two edge ends less than twice the number of its intersections: one at each
/// end vertex and two at every intersection between them. With `n`
/// intersections between the end vertices of an edge that has at least two
/// vertices, these are `2 * n + 2` edge ends.
pub proof fn lemma_edge_end_count<C: Copy>(edge: EdgeView<C>)
    requires
        edge.wf(),
        edge.has_endpoints(),
    ensures
        edge_ends(edge).len() == 2 * edge.intersections.len() - 2,
{
    lemma_edge_end_count_up_to(edge, edge.intersections.len());
}

/// Cuts edges into edge ends.
#[derive(Debug)]
pub struct EdgeEndBuilder<C: Copy> {
    _marker: PhantomData<C>,
}

impl<C: Copy> EdgeEndBuilder<C> {
    /// A builder.
    pub fn new() -> Self {
        EdgeEndBuilder { _marker: PhantomData }
    }

    /// Adds the two end vertices of each edge to its intersections and cuts
    /// each edge into its edge ends. The edge ends come edge after edge, and
    /// for each edge in the order of its intersections.
    pub fn compute_ends_for_edges(&self, edges: &mut Vec<Edge<C>>) -> (list: Vec<EdgeEnd<C>>)
        requires
            forall|i: int| 0 <= i < old(edges)@.len() ==> (#[trigger] old(edges)@[i]).wf(),
        ensures
            final(edges)@.len() == old(edges)@.len(),
            forall|i: int|
                0 <= i < old(edges)@.len() ==> (#[trigger] final(edges)@[i])@ == old(
                    edges,
                )@[i]@.with_endpoints() && final(edges)@[i].wf(),
            list@ == ends_of_edges(final(edges)@, final(edges)@.len()),
    {
        let mut list: Vec<EdgeEnd<C>> = Vec::new();
        let n: usize = edges.len();
        let mut i: usize = 0;
        while i < n
            invariant
                i <= n,
                n == edges@.len(),
                n == old(edges)@.len(),
                forall|j: int|
                    0 <= j < i ==> (#[trigger] edges@[j])@ == old(edges)@[j]@.with_endpoints()
                        && edges@[j].wf(),
                forall|j: int| i <= j < n ==> #[trigger] edges@[j] == old(edges)@[j],
                forall|j: int| 0 <= j < n ==> (#[trigger] old(edges)@[j]).wf(),
                list@ == ends_of_edges(edges@, i as nat),
            decreases n - i,
        {
            let ghost before = edges@;
            self.compute_ends_for_edge(&mut edges[i], &mut list);
            proof {
                lemma_ends_of_edges_prefix(before, edges@, i as nat);
            }
            i += 1;
        }
        list
    }

    /// Adds the two end vertices of the edge to its intersections and appends
    /// the edge ends of the edge to `list`, in the order of its intersections.
    pub fn compute_ends_for_edge(&self, edge: &mut Edge<C>, list: &mut Vec<EdgeEnd<C>>)
        requires
            old(edge).wf(),
        ensures
            final(edge).wf(),
            final(edge)@ == old(edge)@.with_endpoints(),
            final(list)@ == old(list)@ + edge_ends(final(edge)@),
            final(list)@.len() == old(list)@.len() + 2 * final(edge)@.intersections.len() - 2,
    {
        edge.add_edge_intersection_list_endpoints();
        let intersections = edge.edge_intersections();
        let n: usize = intersections.len();
        let mut k: usize = 0;
        while k < n
            invariant
                k <= n,
                edge.wf(),
                intersections@ == edge@.intersections,
                n == intersections@.len(),
                list@ == old(list)@ + ends_up_to(edge@, k as nat),
            decreases n - k,
        {
            let ei_curr = &intersections[k];
            let ei_prev = if k > 0 {
                Some(&intersections[k - 1])
            } else {
                None
            };
            let ei_next = if k + 1 < n {
                Some(&intersections[k + 1])
            } else {
                None
            };
            proof {
                if k + 1 < n {
                    assert(intersections@[k as int].is_before(&intersections@[k + 1]));
                }
            }
            self.create_edge_end_for_prev(edge, list, ei_curr, ei_prev);
            self.create_edge_end_for_next(edge, list, ei_curr, ei_next);
            assert(list@ =~= old(list)@ + ends_up_to(edge@, (k + 1) as nat));
            k += 1;
        }
        proof {
            lemma_edge_end_count(edge@);
        }
    }

    /// Appends to `list` the edge end that leads from the intersection
    /// `ei_curr` back along the edge, if there is one.
    pub fn create_edge_end_for_prev(
        &self,
        edge: &Edge<C>,
        list: &mut Vec<EdgeEnd<C>>,
        ei_curr: &EdgeIntersection<C>,
        ei_prev: Option<&EdgeIntersection<C>>,
    )
        requires
            previous_vertex(*ei_curr) < edge@.coords.len(),
        ensures
            final(list)@ == old(list)@ + optional(end_for_prev(edge@, *ei_curr, pointee(ei_prev))),
    {
        let mut i_prev: usize = ei_curr.segment_index();
        if ei_curr.distance() == 0 {
            // at the start of the edge there is no previous vertex
            if i_prev == 0 {
                assert(list@ =~= old(list)@ + optional(
                    end_for_prev(edge@, *ei_curr, pointee(ei_prev)),
                ));
                return ;
            }
            i_prev -= 1;
        }
        let mut coord_prev = edge.coords()[i_prev];
        // a previous intersection past the previous vertex takes its place
        if let Some(ei_prev) = ei_prev {
            if ei_prev.segment_index() >= i_prev {
                coord_prev = ei_prev.coordinate();
            }
        }
        let mut label = *edge.label();
        // the edge end runs against its edge, so its sides are exchanged
        label.flip();
        let edge_end = EdgeEnd::new(ei_curr.coordinate(), coord_prev, label);
        list.push(edge_end);
        assert(list@ =~= old(list)@ + optional(end_for_prev(edge@, *ei_curr, pointee(ei_prev))));
    }

    /// Appends to `list` the edge end that leads from the intersection
    /// `ei_curr` on along the edge, if there is one.
    pub fn create_edge_end_for_next(
        &self,
        edge: &Edge<C>,
        list: &mut Vec<EdgeEnd<C>>,
        ei_curr: &EdgeIntersection<C>,
        ei_next: Option<&EdgeIntersection<C>>,
    )
        requires
            ei_curr.segment_index + 1 < edge@.coords.len() || ei_next is None,
        ensures
            final(list)@ == old(list)@ + optional(end_for_next(edge@, *ei_curr, pointee(ei_next))),
    {
        let vertex_count: usize = edge.coords().len();
        // without a further vertex or intersection there is nothing to do
        if ei_next.is_none() && (vertex_count == 0 || ei_curr.segment_index() >= vertex_count
            - 1) {
            assert(list@ =~= old(list)@ + optional(
                end_for_next(edge@, *ei_curr, pointee(ei_next)),
            ));
            return ;
        }
        let i_next: usize = ei_curr.segment_index() + 1;
        let mut coord_next = edge.coords()[i_next];
        // a next intersection on the same segment takes the place of the vertex
        if let Some(ei_next) = ei_next {
            if ei_next.segment_index() == ei_curr.segment_index() {
                coord_next = ei_next.coordinate();
            }
        }
        let label = *edge.label();
        let edge_end = EdgeEnd::new(ei_curr.coordinate(), coord_next, label);
        list.push(edge_end);
        assert(list@ =~= old(list)@ + optional(end_for_next(edge@, *ei_curr, pointee(ei_next))));
    }
}

/// The edge ends of the first `n` edges depend on those edges alone.
proof fn lemma_ends_of_edges_prefix<C: Copy>(a: Seq<Edge<C>>, b: Seq<Edge<C>>, n: nat)
    requires
        forall|j: int| 0 <= j < n ==> a[j] == b[j],
    ensures
        ends_of_edges(a, n) == ends_of_edges(b, n),
    decreases n,
{
    if n > 0 {
        lemma_ends_of_edges_prefix(a, b, (n - 1) as nat);
    }
}

} // verus!
