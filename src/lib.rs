//! An undirected graph container: typed data on nodes and on edges, keyed by
//! a caller-chosen identifier.
pub mod graph;
pub mod laws;

pub use graph::Graph;
