//! Topological relation of two planar geometries: labels, edge ends and the
//! DE-9IM intersection matrix.

pub mod boundary_node_rule;
pub mod dimensions;
pub mod edge;
pub mod edge_end;
pub mod edge_end_builder;
pub mod edge_end_bundle;
pub mod edge_intersection;
pub mod intersection_matrix;
pub mod label;
pub mod location;
pub mod topology_location;
