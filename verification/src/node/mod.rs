mod model;
pub mod routes;

pub use model::{
    created_node_is_found, deleted_node_is_gone, has_node, missing_graph_text, new_node,
    node_by_id, node_index, node_is_source, node_is_source_text, node_is_target,
    node_is_target_text, node_key_present, patched_node, patched_node_keeps_the_rest, Node, NodeInit, NodePatch,
};
