//! How many boundary edges must meet at a node for the node to lie on the
//! boundary of a geometry.

use crate::location::Location;
use vstd::prelude::*;

verus! {

/// A rule that tells, from the number of boundary edges of a geometry that
/// end at a node, whether the node lies on the boundary of the geometry.
///
/// The library applies [`Mod2BoundaryNodeRule`] throughout; the trait is where
/// another rule would be added.
pub trait BoundaryNodeRule {
    /// Whether a node at which `boundary_count` boundary edges end lies on
    /// the boundary.
    spec fn in_boundary(&self, boundary_count: nat) -> bool;

    /// Whether a node at which `boundary_count` boundary edges end lies on
    /// the boundary.
    fn is_in_boundary(&self, boundary_count: usize) -> (r: bool)
        ensures
            r == self.in_boundary(boundary_count as nat),
    ;
}

/// The rule of the simple feature model: a node lies on the boundary if and
/// only if an odd number of boundary edges end at it.
#[derive(Clone, Copy, Debug, PartialEq, Eq, Structural, Hash)]
pub struct Mod2BoundaryNodeRule;

impl BoundaryNodeRule for Mod2BoundaryNodeRule {
    open spec fn in_boundary(&self, boundary_count: nat) -> bool {
        boundary_count % 2 == 1
    }

    fn is_in_boundary(&self, boundary_count: usize) -> (r: bool) {
        boundary_count % 2 == 1
    }
}

/// The location of a node at which `boundary_count` boundary edges end:
/// `Boundary` where the rule puts it on the boundary, `Interior` otherwise.
pub open spec fn spec_determine_boundary<R: BoundaryNodeRule>(
    boundary_node_rule: &R,
    boundary_count: nat,
) -> Location {
    if boundary_node_rule.in_boundary(boundary_count) {
        Location::Boundary
    } else {
        Location::Interior
    }
}

/// The location of a node at which `boundary_count` boundary edges end.
pub fn determine_boundary<R: BoundaryNodeRule>(
    boundary_node_rule: &R,
    boundary_count: usize,
) -> (location: Location)
    ensures
        location == spec_determine_boundary(boundary_node_rule, boundary_count as nat),
{
    if boundary_node_rule.is_in_boundary(boundary_count) {
        Location::Boundary
    } else {
        Location::Interior
    }
}

/// Under the mod-2 rule a node is on the boundary exactly for an odd count,
/// and in the interior for an even one.
pub proof fn lemma_mod2_rule(boundary_count: nat)
    ensures
        spec_determine_boundary(&Mod2BoundaryNodeRule, boundary_count) == if boundary_count % 2
            == 1 {
            Location::Boundary
        } else {
            Location::Interior
        },
{
}

} // verus!
