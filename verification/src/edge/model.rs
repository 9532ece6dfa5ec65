//! Edges: the rows of the edge table and the operations on them.

use vstd::prelude::*;
use crate::api_error::GraphError;
use crate::db::{
    edge_ids, edge_source_refs, edge_target_refs, exhausted_text, first_key_is_unique,
    ids_exhausted, key_index, keys_after_push, keys_after_remove, keys_valid, node_ids,
    refs_after_push, refs_after_remove, valid_key_is_first, Store, Timestamp,
};
use crate::node::{has_node, node_key_present, Node};

verus! {

/// What a new edge is made from.
#[derive(Debug, PartialEq, Eq)]
pub struct EdgeInit {
    pub edge_label: String,
    pub source_id: i32,
    pub target_id: i32,
}

/// A partial update of an edge: a label that is `None` is left as it is.
#[derive(Debug, PartialEq, Eq)]
pub struct EdgePatch {
    pub edge_label: Option<String>,
}

/// A row of the edge table: a labelled link from a source node to a target
/// node. Loops and parallel edges are allowed.
#[derive(Debug, PartialEq, Eq)]
pub struct Edge {
    pub id: i32,
    pub edge_label: String,
    pub source_id: i32,
    pub target_id: i32,
    pub created_at: Timestamp,
    pub updated_at: Option<Timestamp>,
}

/// Some row of the table has this identifier.
pub open spec fn has_edge(rows: Seq<Edge>, id: i32) -> bool {
    exists|i: int| 0 <= i < rows.len() && #[trigger] rows[i].id == id
}

/// The place of the first row with this identifier, where there is one.
pub open spec fn edge_index(rows: Seq<Edge>, id: i32) -> int {
    key_index(edge_ids(rows), id)
}

/// The row with this identifier, where there is one.
pub open spec fn edge_by_id(rows: Seq<Edge>, id: i32) -> Edge {
    rows[edge_index(rows, id)]
}

/// What the table answers to an edge whose source node does not exist.
pub open spec fn missing_source_text() -> Seq<char> {
    "insert or update on table \"edge\" violates foreign key constraint \"edge_source_id_fkey\""@
}

/// What the table answers to an edge whose target node does not exist.
pub open spec fn missing_target_text() -> Seq<char> {
    "insert or update on table \"edge\" violates foreign key constraint \"edge_target_id_fkey\""@
}

/// The row that an insert writes: the payload's fields, the identifier and
/// the time that the table assigns, no update time.
pub open spec fn new_edge(id: i32, init: EdgeInit, now: Timestamp) -> Edge {
    Edge {
        id,
        edge_label: init.edge_label,
        source_id: init.source_id,
        target_id: init.target_id,
        created_at: now,
        updated_at: None,
    }
}

/// The row after a partial update: the label is taken from the payload if
/// it holds one, every other field stays, the update time is set.
pub open spec fn patched_edge(row: Edge, patch: EdgePatch, now: Timestamp) -> Edge {
    Edge {
        id: row.id,
        edge_label: match patch.edge_label {
            Some(v) => v,
            None => row.edge_label,
        },
        source_id: row.source_id,
        target_id: row.target_id,
        created_at: row.created_at,
        updated_at: Some(now),
    }
}

impl EdgePatch {
    /// Whether the payload holds no label.
    pub fn is_empty(&self) -> (empty: bool)
        ensures
            empty == (self.edge_label is None),
    {
        self.edge_label.is_none()
    }
}

impl Clone for Edge {
    fn clone(&self) -> (row: Edge)
        ensures
            row == *self,
    {
        Edge {
            id: self.id,
            edge_label: self.edge_label.clone(),
            source_id: self.source_id,
            target_id: self.target_id,
            created_at: self.created_at,
            updated_at: self.updated_at,
        }
    }
}

/// Where the row with this identifier stands in the table, if it has one.
fn position(rows: &Vec<Edge>, id: i32) -> (at: Option<usize>)
    ensures
        match at {
            Some(i) => i < rows@.len() && rows@[i as int].id == id && i == edge_index(rows@, id),
            None => !has_edge(rows@, id),
        },
{
    let mut i: usize = 0;
    while i < rows.len()
        invariant
            i <= rows@.len(),
            forall|j: int| 0 <= j < i ==> (#[trigger] rows@[j]).id != id,
        decreases rows@.len() - i,
    {
        if rows[i].id == id {
            proof {
                first_key_is_unique(edge_ids(rows@), id, i as int);
            }
            return Some(i);
        }
        i += 1;
    }
    None
}

impl Edge {
    /// The row with this identifier; 404 when the table has none.
    pub fn find(store: &Store, id: i32) -> (r: Result<Edge, GraphError>)
        ensures
            match r {
                Ok(row) => has_edge(store.edges@, id) && row == edge_by_id(store.edges@, id),
                Err(e) => !has_edge(store.edges@, id) && e.status_code == 404 && e.message@
                    == "Record not found"@,
            },
    {
        match position(&store.edges, id) {
            Some(i) => Ok(store.edges[i].clone()),
            None => Err(GraphError::not_found()),
        }
    }

    /// Inserts a row for the payload and returns it. The table assigns the
    /// identifier and the creation time. Fails with 409 when the source
    /// node or, that given, the target node does not exist, else with 500
    /// when the table's identifiers are used up; a failed insert changes
    /// nothing.
    pub fn create(store: &mut Store, edge: EdgeInit, now: Timestamp) -> (r: Result<
        Edge,
        GraphError,
    >)
        requires
            old(store).wf(),
        ensures
            final(store).wf(),
            final(store).graphs == old(store).graphs,
            final(store).nodes == old(store).nodes,
            final(store).next_graph_id == old(store).next_graph_id,
            final(store).next_node_id == old(store).next_node_id,
            match r {
                Ok(row) => {
                    &&& has_node(old(store).nodes@, edge.source_id)
                    &&& has_node(old(store).nodes@, edge.target_id)
                    &&& old(store).next_edge_id < i32::MAX
                    &&& row == new_edge(old(store).next_edge_id, edge, now)
                    &&& final(store).edges@ == old(store).edges@.push(row)
                    &&& final(store).next_edge_id == old(store).next_edge_id + 1
                },
                Err(e) => {
                    &&& *final(store) == *old(store)
                    &&& if !has_node(old(store).nodes@, edge.source_id) {
                        e.status_code == 409 && e.message@ == missing_source_text()
                    } else if !has_node(old(store).nodes@, edge.target_id) {
                        e.status_code == 409 && e.message@ == missing_target_text()
                    } else {
                        &&& old(store).next_edge_id == i32::MAX
                        &&& e.status_code == 500
                        &&& e.message@ == exhausted_text()
                    }
                },
            },
    {
        if Node::find(store, edge.source_id).is_err() {
            return Err(
                GraphError::conflict(
                    "insert or update on table \"edge\" violates foreign key constraint \"edge_source_id_fkey\"",
                ),
            );
        }
        if Node::find(store, edge.target_id).is_err() {
            return Err(
                GraphError::conflict(
                    "insert or update on table \"edge\" violates foreign key constraint \"edge_target_id_fkey\"",
                ),
            );
        }
        if store.next_edge_id == i32::MAX {
            return Err(ids_exhausted());
        }
        let id = store.next_edge_id;
        let row = Edge {
            id,
            edge_label: edge.edge_label,
            source_id: edge.source_id,
            target_id: edge.target_id,
            created_at: now,
            updated_at: None,
        };
        store.edges.push(row.clone());
        store.next_edge_id = id + 1;
        proof {
            assert(edge_ids(store.edges@) =~= edge_ids(old(store).edges@).push(id));
            keys_after_push(edge_ids(old(store).edges@), id);
            let keys = node_ids(store.nodes@);
            node_key_present(store.nodes@, edge.source_id);
            node_key_present(store.nodes@, edge.target_id);
            assert(edge_source_refs(store.edges@) =~= edge_source_refs(old(store).edges@).push(
                edge.source_id,
            ));
            assert(edge_target_refs(store.edges@) =~= edge_target_refs(old(store).edges@).push(
                edge.target_id,
            ));
            refs_after_push(edge_source_refs(old(store).edges@), keys, edge.source_id);
            refs_after_push(edge_target_refs(old(store).edges@), keys, edge.target_id);
        }
        Ok(row)
    }

    /// Applies the label that the payload holds, if any, to the row with
    /// this identifier, sets its update time, and returns the row as it then
    /// stands. Fails with 404, and changes nothing, when the table has no
    /// such row.
    pub fn patch(store: &mut Store, id: i32, edge: EdgePatch, now: Timestamp) -> (r: Result<
        Edge,
        GraphError,
    >)
        requires
            old(store).wf(),
        ensures
            final(store).wf(),
            final(store).graphs == old(store).graphs,
            final(store).nodes == old(store).nodes,
            final(store).next_graph_id == old(store).next_graph_id,
            final(store).next_node_id == old(store).next_node_id,
            final(store).next_edge_id == old(store).next_edge_id,
            match r {
                Ok(row) => {
                    &&& has_edge(old(store).edges@, id)
                    &&& row == patched_edge(edge_by_id(old(store).edges@, id), edge, now)
                    &&& final(store).edges@ == old(store).edges@.update(
                        edge_index(old(store).edges@, id),
                        row,
                    )
                },
                Err(e) => {
                    &&& !has_edge(old(store).edges@, id)
                    &&& *final(store) == *old(store)
                    &&& e.status_code == 404
                    &&& e.message@ == "Record not found"@
                },
            },
    {
        match position(&store.edges, id) {
            Some(i) => {
                let current = &store.edges[i];
                let row = Edge {
                    id: current.id,
                    edge_label: match edge.edge_label {
                        Some(v) => v,
                        None => current.edge_label.clone(),
                    },
                    source_id: current.source_id,
                    target_id: current.target_id,
                    created_at: current.created_at,
                    updated_at: Some(now),
                };
                store.edges.set(i, row.clone());
                proof {
                    assert(edge_ids(store.edges@) =~= edge_ids(old(store).edges@));
                    assert(edge_source_refs(store.edges@) =~= edge_source_refs(old(store).edges@));
                    assert(edge_target_refs(store.edges@) =~= edge_target_refs(old(store).edges@));
                }
                Ok(row)
            },
            None => Err(GraphError::not_found()),
        }
    }

    /// Removes the row with this identifier and returns how many rows went:
    /// 1 when the table had it, 0 when not.
    pub fn delete(store: &mut Store, id: i32) -> (r: Result<usize, GraphError>)
        requires
            old(store).wf(),
        ensures
            final(store).wf(),
            final(store).graphs == old(store).graphs,
            final(store).nodes == old(store).nodes,
            final(store).next_graph_id == old(store).next_graph_id,
            final(store).next_node_id == old(store).next_node_id,
            final(store).next_edge_id == old(store).next_edge_id,
            !has_edge(final(store).edges@, id),
            r is Ok,
            r->Ok_0 == (if has_edge(old(store).edges@, id) { 1usize } else { 0usize }),
            has_edge(old(store).edges@, id) ==> final(store).edges@ == old(store).edges@.remove(
                edge_index(old(store).edges@, id),
            ),
            !has_edge(old(store).edges@, id) ==> *final(store) == *old(store),
    {
        match position(&store.edges, id) {
            Some(i) => {
                store.edges.remove(i);
                proof {
                    let before = edge_ids(old(store).edges@);
                    let after = edge_ids(store.edges@);
                    assert(after =~= before.remove(i as int));
                    keys_after_remove(before, store.next_edge_id, i as int);
                    let keys = node_ids(store.nodes@);
                    assert(edge_source_refs(store.edges@) =~= edge_source_refs(
                        old(store).edges@,
                    ).remove(i as int));
                    assert(edge_target_refs(store.edges@) =~= edge_target_refs(
                        old(store).edges@,
                    ).remove(i as int));
                    refs_after_remove(edge_source_refs(old(store).edges@), keys, i as int);
                    refs_after_remove(edge_target_refs(old(store).edges@), keys, i as int);
                    assert forall|k: int| 0 <= k < store.edges@.len() implies (
                    #[trigger] store.edges@[k]).id != id by {
                        assert(after[k] == store.edges@[k].id);
                    }
                }
                Ok(1)
            },
            None => Ok(0),
        }
    }
}

/// Read after write: after an insert, the table has a row with the new
/// identifier, and the row with that identifier is the one that the insert
/// wrote.
pub proof fn created_edge_is_found(rows: Seq<Edge>, next: i32, init: EdgeInit, now: Timestamp)
    requires
        keys_valid(edge_ids(rows), next),
    ensures
        has_edge(rows.push(new_edge(next, init, now)), next),
        edge_by_id(rows.push(new_edge(next, init, now)), next) == new_edge(next, init, now),
{
    let row = new_edge(next, init, now);
    let after = rows.push(row);
    assert(after[rows.len() as int].id == next);
    assert forall|j: int| 0 <= j < rows.len() implies #[trigger] edge_ids(after)[j] != next by {
        assert(edge_ids(rows)[j] == edge_ids(after)[j]);
    }
    first_key_is_unique(edge_ids(after), next, rows.len() as int);
}

/// A partial update changes the fields that the payload holds and the update
/// time, and nothing else: the other fields of the row and all other rows
/// stay as they were, and the row with the identifier is then the row as
/// updated.
pub proof fn patched_edge_keeps_the_rest(
    rows: Seq<Edge>,
    next: i32,
    id: i32,
    patch: EdgePatch,
    now: Timestamp,
)
    requires
        keys_valid(edge_ids(rows), next),
        has_edge(rows, id),
    ensures
        ({
            let at = edge_index(rows, id);
            let old_row = edge_by_id(rows, id);
            let row = patched_edge(old_row, patch, now);
            let after = rows.update(at, row);
            &&& 0 <= at < rows.len()
            &&& old_row.id == id
            &&& row.id == old_row.id
            &&& row.source_id == old_row.source_id
            &&& row.target_id == old_row.target_id
            &&& row.created_at == old_row.created_at
            &&& row.updated_at == Some(now)
            &&& patch.edge_label is None ==> row.edge_label == old_row.edge_label
            &&& patch.edge_label is Some ==> row.edge_label == patch.edge_label->Some_0
            &&& forall|j: int| 0 <= j < rows.len() && j != at ==> after[j] == rows[j]
            &&& has_edge(after, id)
            &&& edge_by_id(after, id) == row
        }),
{
    let found = choose|i: int| 0 <= i < rows.len() && #[trigger] rows[i].id == id;
    valid_key_is_first(edge_ids(rows), next, found);
    let row = patched_edge(rows[found], patch, now);
    let after = rows.update(found, row);
    assert(after[found].id == id);
    assert(edge_ids(after) =~= edge_ids(rows));
}

/// Once the row with an identifier is removed, the table is one row shorter
/// and has no row with that identifier.
pub proof fn deleted_edge_is_gone(rows: Seq<Edge>, next: i32, id: i32)
    requires
        keys_valid(edge_ids(rows), next),
        has_edge(rows, id),
    ensures
        0 <= edge_index(rows, id) < rows.len(),
        rows.remove(edge_index(rows, id)).len() == rows.len() - 1,
        !has_edge(rows.remove(edge_index(rows, id)), id),
{
    let found = choose|i: int| 0 <= i < rows.len() && #[trigger] rows[i].id == id;
    valid_key_is_first(edge_ids(rows), next, found);
    let after = rows.remove(found);
    assert(edge_ids(after) =~= edge_ids(rows).remove(found));
    keys_after_remove(edge_ids(rows), next, found);
    assert forall|k: int| 0 <= k < after.len() implies (#[trigger] after[k]).id != id by {
        assert(edge_ids(after)[k] == after[k].id);
    }
}

} // verus!
