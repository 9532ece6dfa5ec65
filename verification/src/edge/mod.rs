mod model;
pub mod routes;

pub use model::{
    created_edge_is_found, deleted_edge_is_gone, edge_by_id, edge_index, has_edge,
    missing_source_text, missing_target_text, new_edge, patched_edge,
    patched_edge_keeps_the_rest, Edge, EdgeInit, EdgePatch,
};
