//! A small graph backend: graphs own nodes, nodes are joined by directed
//! edges. The crate holds the three tables, the operations on their rows, the
//! aggregate read of a graph with its nodes and edges, the mapping of
//! failures to status codes, and the reply each route gives.

pub mod api_error;
pub mod db;
pub mod edge;
pub mod graph;
pub mod node;
pub mod response;
