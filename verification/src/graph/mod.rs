mod model;
pub mod routes;

pub use model::{
    aggregate_holds_exactly, created_graph_is_found, deleted_graph_is_gone, edges_from,
    graph_by_id, graph_in_use, graph_in_use_text, graph_index, graph_key_present, has_graph, in_graph, new_graph, nodes_of, patched_graph,
    patched_graph_keeps_the_rest, starts_among, ExtendedGraph, Graph, GraphInit, GraphPatch,
    DEFAULT_SCALE, DEFAULT_TRANSLATE,
};
