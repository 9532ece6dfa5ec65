//! Nodes: the rows of the node table and the operations on them.

use vstd::prelude::*;
use crate::api_error::GraphError;
use crate::db::{
    edge_source_refs, edge_target_refs, exhausted_text, first_key_is_unique, graph_ids,
    ids_exhausted, key_index, keys_after_push, keys_after_remove, keys_valid, node_graph_refs,
    node_ids, refs_after_key_push, refs_after_key_remove, refs_after_push, refs_after_remove,
    valid_key_is_first, Number, Store, Timestamp,
};
use crate::edge::Edge;
use crate::graph::{graph_key_present, has_graph, Graph};

verus! {

/// What a new node is made from.
#[derive(Debug, PartialEq, Eq)]
pub struct NodeInit {
    pub node_label: String,
    pub graph_id: i32,
    pub x_coord: Number,
    pub y_coord: Number,
}

/// A partial update of a node: a field that is `None` is left as it is.
#[derive(Debug, PartialEq, Eq)]
pub struct NodePatch {
    pub node_label: Option<String>,
    pub x_coord: Option<Number>,
    pub y_coord: Option<Number>,
}

/// A row of the node table: a labelled point that belongs to one graph.
#[derive(Debug, PartialEq, Eq)]
pub struct Node {
    pub id: i32,
    pub node_label: String,
    pub graph_id: i32,
    pub x_coord: Number,
    pub y_coord: Number,
    pub created_at: Timestamp,
    pub updated_at: Option<Timestamp>,
}

/// Some row of the table has this identifier.
pub open spec fn has_node(rows: Seq<Node>, id: i32) -> bool {
    exists|i: int| 0 <= i < rows.len() && #[trigger] rows[i].id == id
}

/// The place of the first row with this identifier, where there is one.
pub open spec fn node_index(rows: Seq<Node>, id: i32) -> int {
    key_index(node_ids(rows), id)
}

/// The row with this identifier, where there is one.
pub open spec fn node_by_id(rows: Seq<Node>, id: i32) -> Node {
    rows[node_index(rows, id)]
}

/// What the table answers to a node whose graph does not exist.
pub open spec fn missing_graph_text() -> Seq<char> {
    "insert or update on table \"node\" violates foreign key constraint \"node_graph_id_fkey\""@
}

/// Some edge starts at the node with this identifier.
pub open spec fn node_is_source(edges: Seq<Edge>, id: i32) -> bool {
    edge_source_refs(edges).contains(id)
}

/// Some edge ends at the node with this identifier.
pub open spec fn node_is_target(edges: Seq<Edge>, id: i32) -> bool {
    edge_target_refs(edges).contains(id)
}

/// What the table answers to the removal of a node at which edges start.
pub open spec fn node_is_source_text() -> Seq<char> {
    "update or delete on table \"node\" violates foreign key constraint \"edge_source_id_fkey\" on table \"edge\""@
}

/// What the table answers to the removal of a node at which edges end.
pub open spec fn node_is_target_text() -> Seq<char> {
    "update or delete on table \"node\" violates foreign key constraint \"edge_target_id_fkey\" on table \"edge\""@
}

/// A node that is there has its identifier in the key column.
pub proof fn node_key_present(rows: Seq<Node>, id: i32)
    requires
        has_node(rows, id),
    ensures
        node_ids(rows).contains(id),
{
    let w = choose|w: int| 0 <= w < rows.len() && #[trigger] rows[w].id == id;
    assert(node_ids(rows)[w] == id);
}

/// The row that an insert writes: the payload's fields, the identifier and
/// the time that the table assigns, no update time.
pub open spec fn new_node(id: i32, init: NodeInit, now: Timestamp) -> Node {
    Node {
        id,
        node_label: init.node_label,
        graph_id: init.graph_id,
        x_coord: init.x_coord,
        y_coord: init.y_coord,
        created_at: now,
        updated_at: None,
    }
}

/// The row after a partial update: each field that the payload holds is
/// taken from it, every other field stays, the update time is set.
pub open spec fn patched_node(row: Node, patch: NodePatch, now: Timestamp) -> Node {
    Node {
        id: row.id,
        node_label: match patch.node_label {
            Some(v) => v,
            None => row.node_label,
        },
        graph_id: row.graph_id,
        x_coord: match patch.x_coord {
            Some(v) => v,
            None => row.x_coord,
        },
        y_coord: match patch.y_coord {
            Some(v) => v,
            None => row.y_coord,
        },
        created_at: row.created_at,
        updated_at: Some(now),
    }
}

impl NodePatch {
    /// Whether the payload holds no field at all.
    pub fn is_empty(&self) -> (empty: bool)
        ensures
            empty == (self.node_label is None && self.x_coord is None && self.y_coord is None),
    {
        self.node_label.is_none() && self.x_coord.is_none() && self.y_coord.is_none()
    }
}

impl Clone for Node {
    fn clone(&self) -> (row: Node)
        ensures
            row == *self,
    {
        Node {
            id: self.id,
            node_label: self.node_label.clone(),
            graph_id: self.graph_id,
            x_coord: self.x_coord,
            y_coord: self.y_coord,
            created_at: self.created_at,
            updated_at: self.updated_at,
        }
    }
}

/// Where the row with this identifier stands in the table, if it has one.
fn position(rows: &Vec<Node>, id: i32) -> (at: Option<usize>)
    ensures
        match at {
            Some(i) => i < rows@.len() && rows@[i as int].id == id && i == node_index(rows@, id),
            None => !has_node(rows@, id),
        },
{
    let mut i: usize = 0;
    while i < rows.len()
        invariant
            i <= rows@.len(),
            forall|j: int| 0 <= j < i ==> (#[trigger] rows@[j]).id != id,
        decreases rows@.len() - i,
    {
        if rows[i].id == id {
            proof {
                first_key_is_unique(node_ids(rows@), id, i as int);
            }
            return Some(i);
        }
        i += 1;
    }
    None
}

/// Whether some edge starts at the node with this identifier.
fn is_source(edges: &Vec<Edge>, id: i32) -> (used: bool)
    ensures
        used == node_is_source(edges@, id),
{
    let mut i: usize = 0;
    while i < edges.len()
        invariant
            i <= edges@.len(),
            forall|j: int| 0 <= j < i ==> (#[trigger] edges@[j]).source_id != id,
        decreases edges@.len() - i,
    {
        if edges[i].source_id == id {
            assert(edge_source_refs(edges@)[i as int] == id);
            return true;
        }
        i += 1;
    }
    assert forall|j: int| 0 <= j < edge_source_refs(edges@).len() implies edge_source_refs(
        edges@,
    )[j] != id by {
        assert(edges@[j].source_id != id);
    }
    false
}

/// Whether some edge ends at the node with this identifier.
fn is_target(edges: &Vec<Edge>, id: i32) -> (used: bool)
    ensures
        used == node_is_target(edges@, id),
{
    let mut i: usize = 0;
    while i < edges.len()
        invariant
            i <= edges@.len(),
            forall|j: int| 0 <= j < i ==> (#[trigger] edges@[j]).target_id != id,
        decreases edges@.len() - i,
    {
        if edges[i].target_id == id {
            assert(edge_target_refs(edges@)[i as int] == id);
            return true;
        }
        i += 1;
    }
    assert forall|j: int| 0 <= j < edge_target_refs(edges@).len() implies edge_target_refs(
        edges@,
    )[j] != id by {
        assert(edges@[j].target_id != id);
    }
    false
}

impl Node {
    /// The row with this identifier; 404 when the table has none.
    pub fn find(store: &Store, id: i32) -> (r: Result<Node, GraphError>)
        ensures
            match r {
                Ok(row) => has_node(store.nodes@, id) && row == node_by_id(store.nodes@, id),
                Err(e) => !has_node(store.nodes@, id) && e.status_code == 404 && e.message@
                    == "Record not found"@,
            },
    {
        match position(&store.nodes, id) {
            Some(i) => Ok(store.nodes[i].clone()),
            None => Err(GraphError::not_found()),
        }
    }

    /// Inserts a row for the payload and returns it. The table assigns the
    /// identifier and the creation time. Fails with 409 when the payload's
    /// graph does not exist, else with 500 when the table's identifiers are
    /// used up; a failed insert changes nothing.
    pub fn create(store: &mut Store, node: NodeInit, now: Timestamp) -> (r: Result<
        Node,
        GraphError,
    >)
        requires
            old(store).wf(),
        ensures
            final(store).wf(),
            final(store).graphs == old(store).graphs,
            final(store).edges == old(store).edges,
            final(store).next_graph_id == old(store).next_graph_id,
            final(store).next_edge_id == old(store).next_edge_id,
            match r {
                Ok(row) => {
                    &&& has_graph(old(store).graphs@, node.graph_id)
                    &&& old(store).next_node_id < i32::MAX
                    &&& row == new_node(old(store).next_node_id, node, now)
                    &&& final(store).nodes@ == old(store).nodes@.push(row)
                    &&& final(store).next_node_id == old(store).next_node_id + 1
                },
                Err(e) => {
                    &&& *final(store) == *old(store)
                    &&& if !has_graph(old(store).graphs@, node.graph_id) {
                        e.status_code == 409 && e.message@ == missing_graph_text()
                    } else {
                        &&& old(store).next_node_id == i32::MAX
                        &&& e.status_code == 500
                        &&& e.message@ == exhausted_text()
                    }
                },
            },
    {
        if Graph::find(store, node.graph_id).is_err() {
            return Err(
                GraphError::conflict(
                    "insert or update on table \"node\" violates foreign key constraint \"node_graph_id_fkey\"",
                ),
            );
        }
        if store.next_node_id == i32::MAX {
            return Err(ids_exhausted());
        }
        let id = store.next_node_id;
        let row = Node {
            id,
            node_label: node.node_label,
            graph_id: node.graph_id,
            x_coord: node.x_coord,
            y_coord: node.y_coord,
            created_at: now,
            updated_at: None,
        };
        store.nodes.push(row.clone());
        store.next_node_id = id + 1;
        proof {
            let keys = node_ids(old(store).nodes@);
            assert(node_ids(store.nodes@) =~= keys.push(id));
            keys_after_push(keys, id);
            refs_after_key_push(edge_source_refs(store.edges@), keys, id);
            refs_after_key_push(edge_target_refs(store.edges@), keys, id);
            graph_key_present(store.graphs@, node.graph_id);
            assert(node_graph_refs(store.nodes@) =~= node_graph_refs(old(store).nodes@).push(
                node.graph_id,
            ));
            refs_after_push(
                node_graph_refs(old(store).nodes@),
                graph_ids(store.graphs@),
                node.graph_id,
            );
        }
        Ok(row)
    }

    /// Applies the fields that the payload holds to the row with this
    /// identifier, sets its update time, and returns the row as it then
    /// stands. Fails with 404, and changes nothing, when the table has no
    /// such row.
    pub fn patch(store: &mut Store, id: i32, node: NodePatch, now: Timestamp) -> (r: Result<
        Node,
        GraphError,
    >)
        requires
            old(store).wf(),
        ensures
            final(store).wf(),
            final(store).graphs == old(store).graphs,
            final(store).edges == old(store).edges,
            final(store).next_graph_id == old(store).next_graph_id,
            final(store).next_edge_id == old(store).next_edge_id,
            final(store).next_node_id == old(store).next_node_id,
            match r {
                Ok(row) => {
                    &&& has_node(old(store).nodes@, id)
                    &&& row == patched_node(node_by_id(old(store).nodes@, id), node, now)
                    &&& final(store).nodes@ == old(store).nodes@.update(
                        node_index(old(store).nodes@, id),
                        row,
                    )
                },
                Err(e) => {
                    &&& !has_node(old(store).nodes@, id)
                    &&& *final(store) == *old(store)
                    &&& e.status_code == 404
                    &&& e.message@ == "Record not found"@
                },
            },
    {
        match position(&store.nodes, id) {
            Some(i) => {
                let current = &store.nodes[i];
                let row = Node {
                    id: current.id,
                    node_label: match node.node_label {
                        Some(v) => v,
                        None => current.node_label.clone(),
                    },
                    graph_id: current.graph_id,
                    x_coord: match node.x_coord {
                        Some(v) => v,
                        None => current.x_coord,
                    },
                    y_coord: match node.y_coord {
                        Some(v) => v,
                        None => current.y_coord,
                    },
                    created_at: current.created_at,
                    updated_at: Some(now),
                };
                store.nodes.set(i, row.clone());
                proof {
                    assert(node_ids(store.nodes@) =~= node_ids(old(store).nodes@));
                    assert(node_graph_refs(store.nodes@) =~= node_graph_refs(old(store).nodes@));
                }
                Ok(row)
            },
            None => Err(GraphError::not_found()),
        }
    }

    /// Removes the row with this identifier and returns how many rows went:
    /// 1 when the table had it, 0 when not. A node at which an edge starts
    /// or ends is not removed: that fails with 409 and changes nothing.
    pub fn delete(store: &mut Store, id: i32) -> (r: Result<usize, GraphError>)
        requires
            old(store).wf(),
        ensures
            final(store).wf(),
            final(store).graphs == old(store).graphs,
            final(store).edges == old(store).edges,
            final(store).next_graph_id == old(store).next_graph_id,
            final(store).next_node_id == old(store).next_node_id,
            final(store).next_edge_id == old(store).next_edge_id,
            match r {
                Ok(count) => {
                    &&& !node_is_source(old(store).edges@, id)
                    &&& !node_is_target(old(store).edges@, id)
                    &&& !has_node(final(store).nodes@, id)
                    &&& if has_node(old(store).nodes@, id) {
                        &&& count == 1
                        &&& final(store).nodes@ == old(store).nodes@.remove(
                            node_index(old(store).nodes@, id),
                        )
                    } else {
                        count == 0 && *final(store) == *old(store)
                    }
                },
                Err(e) => {
                    &&& *final(store) == *old(store)
                    &&& e.status_code == 409
                    &&& if node_is_source(old(store).edges@, id) {
                        e.message@ == node_is_source_text()
                    } else {
                        node_is_target(old(store).edges@, id) && e.message@
                            == node_is_target_text()
                    }
                },
            },
    {
        if is_source(&store.edges, id) {
            return Err(
                GraphError::conflict(
                    "update or delete on table \"node\" violates foreign key constraint \"edge_source_id_fkey\" on table \"edge\"",
                ),
            );
        }
        if is_target(&store.edges, id) {
            return Err(
                GraphError::conflict(
                    "update or delete on table \"node\" violates foreign key constraint \"edge_target_id_fkey\" on table \"edge\"",
                ),
            );
        }
        match position(&store.nodes, id) {
            Some(i) => {
                store.nodes.remove(i);
                proof {
                    let before = node_ids(old(store).nodes@);
                    let after = node_ids(store.nodes@);
                    assert(after =~= before.remove(i as int));
                    keys_after_remove(before, store.next_node_id, i as int);
                    refs_after_key_remove(edge_source_refs(store.edges@), before, i as int);
                    refs_after_key_remove(edge_target_refs(store.edges@), before, i as int);
                    assert(node_graph_refs(store.nodes@) =~= node_graph_refs(
                        old(store).nodes@,
                    ).remove(i as int));
                    refs_after_remove(
                        node_graph_refs(old(store).nodes@),
                        graph_ids(store.graphs@),
                        i as int,
                    );
                    assert forall|k: int| 0 <= k < store.nodes@.len() implies (
                    #[trigger] store.nodes@[k]).id != id by {
                        assert(after[k] == store.nodes@[k].id);
                    }
                }
                Ok(1)
            },
            None => Ok(0),
        }
    }
}

/// Read after write: after an insert, the table has a row with the new
/// identifier, and the row with that identifier is the one that the insert
/// wrote.
pub proof fn created_node_is_found(rows: Seq<Node>, next: i32, init: NodeInit, now: Timestamp)
    requires
        keys_valid(node_ids(rows), next),
    ensures
        has_node(rows.push(new_node(next, init, now)), next),
        node_by_id(rows.push(new_node(next, init, now)), next) == new_node(next, init, now),
{
    let row = new_node(next, init, now);
    let after = rows.push(row);
    assert(after[rows.len() as int].id == next);
    assert forall|j: int| 0 <= j < rows.len() implies #[trigger] node_ids(after)[j] != next by {
        assert(node_ids(rows)[j] == node_ids(after)[j]);
    }
    first_key_is_unique(node_ids(after), next, rows.len() as int);
}

/// A partial update changes the fields that the payload holds and the update
/// time, and nothing else: the other fields of the row and all other rows
/// stay as they were, and the row with the identifier is then the row as
/// updated.
pub proof fn patched_node_keeps_the_rest(
    rows: Seq<Node>,
    next: i32,
    id: i32,
    patch: NodePatch,
    now: Timestamp,
)
    requires
        keys_valid(node_ids(rows), next),
        has_node(rows, id),
    ensures
        ({
            let at = node_index(rows, id);
            let old_row = node_by_id(rows, id);
            let row = patched_node(old_row, patch, now);
            let after = rows.update(at, row);
            &&& 0 <= at < rows.len()
            &&& old_row.id == id
            &&& row.id == old_row.id
            &&& row.graph_id == old_row.graph_id
            &&& row.created_at == old_row.created_at
            &&& row.updated_at == Some(now)
            &&& patch.node_label is None ==> row.node_label == old_row.node_label
            &&& patch.x_coord is None ==> row.x_coord == old_row.x_coord
            &&& patch.y_coord is None ==> row.y_coord == old_row.y_coord
            &&& patch.node_label is Some ==> row.node_label == patch.node_label->Some_0
            &&& patch.x_coord is Some ==> row.x_coord == patch.x_coord->Some_0
            &&& patch.y_coord is Some ==> row.y_coord == patch.y_coord->Some_0
            &&& forall|j: int| 0 <= j < rows.len() && j != at ==> after[j] == rows[j]
            &&& has_node(after, id)
            &&& node_by_id(after, id) == row
        }),
{
    let found = choose|i: int| 0 <= i < rows.len() && #[trigger] rows[i].id == id;
    valid_key_is_first(node_ids(rows), next, found);
    let row = patched_node(rows[found], patch, now);
    let after = rows.update(found, row);
    assert(after[found].id == id);
    assert(node_ids(after) =~= node_ids(rows));
}

/// Once the row with an identifier is removed, the table is one row shorter
/// and has no row with that identifier. (A node at which an edge starts or
/// ends is never removed.)
pub proof fn deleted_node_is_gone(rows: Seq<Node>, next: i32, id: i32)
    requires
        keys_valid(node_ids(rows), next),
        has_node(rows, id),
    ensures
        0 <= node_index(rows, id) < rows.len(),
        rows.remove(node_index(rows, id)).len() == rows.len() - 1,
        !has_node(rows.remove(node_index(rows, id)), id),
{
    let found = choose|i: int| 0 <= i < rows.len() && #[trigger] rows[i].id == id;
    valid_key_is_first(node_ids(rows), next, found);
    let after = rows.remove(found);
    assert(node_ids(after) =~= node_ids(rows).remove(found));
    keys_after_remove(node_ids(rows), next, found);
    assert forall|k: int| 0 <= k < after.len() implies (#[trigger] after[k]).id != id by {
        assert(node_ids(after)[k] == after[k].id);
    }
}

} // verus!
