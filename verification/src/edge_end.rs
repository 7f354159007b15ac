//! A directed fragment of an edge at a node of the topology graph.

use crate::label::Label;
use vstd::prelude::*;

verus! {

/// The end of an edge at a node: a ray that leaves the node at `coord_0` in
/// the direction of `coord_1`, with a copy of the label of the edge it was cut
/// from.
///
/// Two edge ends lie in the same bundle when they leave the same node in the
/// same direction. Ordering the ends around a node by their angle is left to
/// the caller, who knows what a coordinate holds.
#[derive(Debug, PartialEq)]
pub struct EdgeEnd<C: Copy> {
    /// The node that the ray leaves.
    pub coord_0: C,
    /// A second point on the ray, which gives its direction.
    pub coord_1: C,
    /// The label of the edge end.
    pub label: Label,
}

impl<C: Copy> Clone for EdgeEnd<C> {
    fn clone(&self) -> (r: Self)
        ensures
            r == *self,
    {
        EdgeEnd { coord_0: self.coord_0, coord_1: self.coord_1, label: self.label }
    }
}

impl<C: Copy> Copy for EdgeEnd<C> {

}

impl<C: Copy> EdgeEnd<C> {
    /// The edge end that leaves `coord_0` towards `coord_1` with the given
    /// label.
    pub fn new(coord_0: C, coord_1: C, label: Label) -> (r: EdgeEnd<C>)
        ensures
            r == (EdgeEnd { coord_0, coord_1, label }),
    {
        EdgeEnd { coord_0, coord_1, label }
    }

    /// The label of the edge end.
    pub fn label(&self) -> (r: &Label)
        ensures
            *r == self.label,
    {
        &self.label
    }

    /// The label of the edge end, to be changed in place.
    pub fn label_mut(&mut self) -> (r: &mut Label)
        ensures
            *r == old(self).label,
            *final(self) == (EdgeEnd {
                coord_0: old(self).coord_0,
                coord_1: old(self).coord_1,
                label: *final(r),
            }),
    {
        &mut self.label
    }

    /// The node that the ray leaves.
    pub fn coordinate(&self) -> (r: C)
        ensures
            r == self.coord_0,
    {
        self.coord_0
    }

    /// The second point on the ray.
    pub fn directed_coordinate(&self) -> (r: C)
        ensures
            r == self.coord_1,
    {
        self.coord_1
    }
}

} // verus!
