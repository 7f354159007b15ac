//! A point at which an edge is met by another edge.

use std::cmp::Ordering;
use vstd::prelude::*;
use vstd::std_specs::cmp::{PartialEqSpecImpl, PartialOrdSpecImpl};

verus! {

/// A point on an edge at which another edge meets it.
///
/// The point lies on the segment `segment_index` of the edge, which runs from
/// the vertex with that index to the next one. `dist` tells how far along the
/// segment it lies, in units of 2<sup>-64</sup> of the segment's length: `0`
/// is the segment's first vertex, `1 << 63` its midpoint. Every distance is
/// therefore at least zero and below one, and any two can be compared.
///
/// The library never looks inside a coordinate: `C` is whatever the caller
/// uses for one.
///
/// Intersections are compared by their place along the edge alone, first by
/// `segment_index` and then by `dist`. Two intersections at the same place are
/// equal under `==` whatever their coordinates.
#[derive(Debug)]
pub struct EdgeIntersection<C: Copy> {
    /// The coordinate of the intersection point.
    pub coord: C,
    /// The index of the segment on which the point lies.
    pub segment_index: usize,
    /// The distance of the point along its segment.
    pub dist: u64,
}

impl<C: Copy> EdgeIntersection<C> {
    /// Whether `self` comes before `other` along the edge.
    pub open spec fn is_before(&self, other: &EdgeIntersection<C>) -> bool {
        self.segment_index < other.segment_index || (self.segment_index == other.segment_index
            && self.dist < other.dist)
    }

    /// Whether `self` and `other` lie at the same place along the edge.
    pub open spec fn is_at(&self, other: &EdgeIntersection<C>) -> bool {
        self.segment_index == other.segment_index && self.dist == other.dist
    }

    /// The order of `self` and `other` along the edge.
    pub open spec fn compare(&self, other: &EdgeIntersection<C>) -> Ordering {
        if self.is_before(other) {
            Ordering::Less
        } else if other.is_before(self) {
            Ordering::Greater
        } else {
            Ordering::Equal
        }
    }

    /// The intersection at `coord`, on the segment `segment_index`, at the
    /// distance `dist` along it.
    pub fn new(coord: C, segment_index: usize, dist: u64) -> (r: EdgeIntersection<C>)
        ensures
            r == (EdgeIntersection { coord, segment_index, dist }),
    {
        EdgeIntersection { coord, segment_index, dist }
    }

    /// The index of the segment on which the point lies.
    pub fn segment_index(&self) -> (r: usize)
        ensures
            r == self.segment_index,
    {
        self.segment_index
    }

    /// The distance of the point along its segment.
    pub fn distance(&self) -> (r: u64)
        ensures
            r == self.dist,
    {
        self.dist
    }

    /// The order of `self` and `other` along the edge: by segment first, by
    /// distance within a segment.
    pub fn cmp(&self, other: &EdgeIntersection<C>) -> (r: Ordering)
        ensures
            r == self.compare(other),
            r == Ordering::Less <==> self.is_before(other),
            r == Ordering::Greater <==> other.is_before(self),
            r == Ordering::Equal <==> self.is_at(other),
    {
        if self.segment_index < other.segment_index {
            return Ordering::Less;
        }
        if self.segment_index > other.segment_index {
            return Ordering::Greater;
        }
        if self.dist < other.dist {
            return Ordering::Less;
        }
        if self.dist > other.dist {
            return Ordering::Greater;
        }
        Ordering::Equal
    }

    /// The coordinate of the intersection point.
    pub fn coordinate(&self) -> (r: C)
        ensures
            r == self.coord,
    {
        self.coord
    }
}

impl<C: Copy> PartialEq for EdgeIntersection<C> {
    fn eq(&self, other: &EdgeIntersection<C>) -> (r: bool) {
        self.segment_index == other.segment_index && self.dist == other.dist
    }
}

impl<C: Copy> PartialEqSpecImpl for EdgeIntersection<C> {
    open spec fn obeys_eq_spec() -> bool {
        true
    }

    open spec fn eq_spec(&self, other: &EdgeIntersection<C>) -> bool {
        self.is_at(other)
    }
}

impl<C: Copy> Eq for EdgeIntersection<C> {

}

impl<C: Copy> PartialOrd for EdgeIntersection<C> {
    fn partial_cmp(&self, other: &EdgeIntersection<C>) -> (r: Option<Ordering>) {
        Some(self.cmp(other))
    }
}

impl<C: Copy> PartialOrdSpecImpl for EdgeIntersection<C> {
    open spec fn obeys_partial_cmp_spec() -> bool {
        true
    }

    open spec fn partial_cmp_spec(&self, other: &EdgeIntersection<C>) -> Option<Ordering> {
        Some(self.compare(other))
    }
}

/// The order along the edge is a strict total order on places: no
/// intersection comes before itself, of two intersections at different
/// places exactly one comes before the other, and the order is transitive.
pub proof fn lemma_order_is_total<C: Copy>(
    a: EdgeIntersection<C>,
    b: EdgeIntersection<C>,
    c: EdgeIntersection<C>,
)
    ensures
        !a.is_before(&a),
        a.is_at(&b) <==> !a.is_before(&b) && !b.is_before(&a),
        !(a.is_before(&b) && b.is_before(&a)),
        a.is_before(&b) && b.is_before(&c) ==> a.is_before(&c),
        a.is_at(&b) && b.is_before(&c) ==> a.is_before(&c),
        a.is_before(&b) && b.is_at(&c) ==> a.is_before(&c),
{
}

} // verus!
