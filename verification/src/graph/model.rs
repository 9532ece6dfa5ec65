//! Graphs: the rows of the graph table, the operations on them, and the
//! aggregate read of a graph with its nodes and their edges.

use vstd::prelude::*;
use crate::api_error::GraphError;
use crate::db::{
    exhausted_text, first_key_is_unique, graph_ids, ids_exhausted, key_index, keys_after_push,
    keys_after_remove, keys_valid, node_graph_refs, refs_after_key_push, refs_after_key_remove,
    valid_key_is_first, Number, Store, Timestamp,
};
use crate::edge::Edge;
use crate::node::{has_node, Node};

verus! {

/// What a new graph is made from.
#[derive(Debug, PartialEq, Eq)]
pub struct GraphInit {
    pub graph_label: String,
}

/// A partial update of a graph: a field that is `None` is left as it is.
#[derive(Debug, PartialEq, Eq)]
pub struct GraphPatch {
    pub translate_x: Option<Number>,
    pub translate_y: Option<Number>,
    pub scale: Option<Number>,
}

/// A row of the graph table: a label and how the graph is shifted and scaled
/// when shown.
#[derive(Debug, PartialEq, Eq)]
pub struct Graph {
    pub id: i32,
    pub graph_label: String,
    pub translate_x: Number,
    pub translate_y: Number,
    pub scale: Number,
    pub created_at: Timestamp,
    pub updated_at: Option<Timestamp>,
}

/// The bit pattern of 0.0: a new graph is not shifted.
pub const DEFAULT_TRANSLATE: u64 = 0;

/// The bit pattern of 1.0: a new graph is shown at its natural size. The
/// column's default is the schema's to set; this is the value the store
/// takes for it.
pub const DEFAULT_SCALE: u64 = 0x3FF0_0000_0000_0000;

/// Some row of the table has this identifier.
pub open spec fn has_graph(rows: Seq<Graph>, id: i32) -> bool {
    exists|i: int| 0 <= i < rows.len() && #[trigger] rows[i].id == id
}

/// The place of the first row with this identifier, where there is one.
pub open spec fn graph_index(rows: Seq<Graph>, id: i32) -> int {
    key_index(graph_ids(rows), id)
}

/// The row with this identifier, where there is one.
pub open spec fn graph_by_id(rows: Seq<Graph>, id: i32) -> Graph {
    rows[graph_index(rows, id)]
}

/// Some node belongs to the graph with this identifier.
pub open spec fn graph_in_use(nodes: Seq<Node>, id: i32) -> bool {
    node_graph_refs(nodes).contains(id)
}

/// What the table answers to the removal of a graph that nodes belong to.
pub open spec fn graph_in_use_text() -> Seq<char> {
    "update or delete on table \"graph\" violates foreign key constraint \"node_graph_id_fkey\" on table \"node\""@
}

/// A graph that is there has its identifier in the key column.
pub proof fn graph_key_present(rows: Seq<Graph>, id: i32)
    requires
        has_graph(rows, id),
    ensures
        graph_ids(rows).contains(id),
{
    let w = choose|w: int| 0 <= w < rows.len() && #[trigger] rows[w].id == id;
    assert(graph_ids(rows)[w] == id);
}

/// The row that an insert writes: the payload's label, the column defaults,
/// the identifier and the time that the table assigns, no update time.
pub open spec fn new_graph(id: i32, init: GraphInit, now: Timestamp) -> Graph {
    Graph {
        id,
        graph_label: init.graph_label,
        translate_x: Number { bits: DEFAULT_TRANSLATE },
        translate_y: Number { bits: DEFAULT_TRANSLATE },
        scale: Number { bits: DEFAULT_SCALE },
        created_at: now,
        updated_at: None,
    }
}

/// The row after a partial update: each field that the payload holds is
/// taken from it, every other field stays, the update time is set.
pub open spec fn patched_graph(row: Graph, patch: GraphPatch, now: Timestamp) -> Graph {
    Graph {
        id: row.id,
        graph_label: row.graph_label,
        translate_x: match patch.translate_x {
            Some(v) => v,
            None => row.translate_x,
        },
        translate_y: match patch.translate_y {
            Some(v) => v,
            None => row.translate_y,
        },
        scale: match patch.scale {
            Some(v) => v,
            None => row.scale,
        },
        created_at: row.created_at,
        updated_at: Some(now),
    }
}

impl GraphPatch {
    /// Whether the payload holds no field at all.
    pub fn is_empty(&self) -> (empty: bool)
        ensures
            empty == (self.translate_x is None && self.translate_y is None && self.scale is None),
    {
        self.translate_x.is_none() && self.translate_y.is_none() && self.scale.is_none()
    }
}

impl Clone for Graph {
    fn clone(&self) -> (row: Graph)
        ensures
            row == *self,
    {
        Graph {
            id: self.id,
            graph_label: self.graph_label.clone(),
            translate_x: self.translate_x,
            translate_y: self.translate_y,
            scale: self.scale,
            created_at: self.created_at,
            updated_at: self.updated_at,
        }
    }
}

/// Where the row with this identifier stands in the table, if it has one.
fn position(rows: &Vec<Graph>, id: i32) -> (at: Option<usize>)
    ensures
        match at {
            Some(i) => i < rows@.len() && rows@[i as int].id == id && i == graph_index(rows@, id),
            None => !has_graph(rows@, id),
        },
{
    let mut i: usize = 0;
    while i < rows.len()
        invariant
            i <= rows@.len(),
            forall|j: int| 0 <= j < i ==> (#[trigger] rows@[j]).id != id,
        decreases rows@.len() - i,
    {
        if rows[i].id == id {
            proof {
                first_key_is_unique(graph_ids(rows@), id, i as int);
            }
            return Some(i);
        }
        i += 1;
    }
    None
}

/// Whether some node belongs to the graph with this identifier.
fn in_use(nodes: &Vec<Node>, id: i32) -> (used: bool)
    ensures
        used == graph_in_use(nodes@, id),
{
    let mut i: usize = 0;
    while i < nodes.len()
        invariant
            i <= nodes@.len(),
            forall|j: int| 0 <= j < i ==> (#[trigger] nodes@[j]).graph_id != id,
        decreases nodes@.len() - i,
    {
        if nodes[i].graph_id == id {
            assert(node_graph_refs(nodes@)[i as int] == id);
            return true;
        }
        i += 1;
    }
    assert forall|j: int| 0 <= j < node_graph_refs(nodes@).len() implies node_graph_refs(
        nodes@,
    )[j] != id by {
        assert(nodes@[j].graph_id != id);
    }
    false
}

impl Graph {
    /// Every row of the table, in the table's order.
    pub fn find_all(store: &Store) -> (r: Result<Vec<Graph>, GraphError>)
        ensures
            r is Ok,
            r->Ok_0@ == store.graphs@,
    {
        let mut out: Vec<Graph> = Vec::new();
        let mut i: usize = 0;
        while i < store.graphs.len()
            invariant
                i <= store.graphs@.len(),
                out@ == store.graphs@.subrange(0, i as int),
            decreases store.graphs@.len() - i,
        {
            out.push(store.graphs[i].clone());
            i += 1;
            assert(out@ =~= store.graphs@.subrange(0, i as int));
        }
        assert(out@ =~= store.graphs@);
        Ok(out)
    }

    /// The row with this identifier; 404 when the table has none.
    pub fn find(store: &Store, id: i32) -> (r: Result<Graph, GraphError>)
        ensures
            match r {
                Ok(row) => has_graph(store.graphs@, id) && row == graph_by_id(store.graphs@, id),
                Err(e) => !has_graph(store.graphs@, id) && e.status_code == 404 && e.message@
                    == "Record not found"@,
            },
    {
        match position(&store.graphs, id) {
            Some(i) => Ok(store.graphs[i].clone()),
            None => Err(GraphError::not_found()),
        }
    }

    /// Inserts a row for the payload and returns it. The table assigns the
    /// identifier and the creation time. Fails with 500, and changes
    /// nothing, only when the table's identifiers are used up.
    pub fn create(store: &mut Store, graph: GraphInit, now: Timestamp) -> (r: Result<
        Graph,
        GraphError,
    >)
        requires
            old(store).wf(),
        ensures
            final(store).wf(),
            final(store).nodes == old(store).nodes,
            final(store).edges == old(store).edges,
            final(store).next_node_id == old(store).next_node_id,
            final(store).next_edge_id == old(store).next_edge_id,
            match r {
                Ok(row) => {
                    &&& old(store).next_graph_id < i32::MAX
                    &&& row == new_graph(old(store).next_graph_id, graph, now)
                    &&& final(store).graphs@ == old(store).graphs@.push(row)
                    &&& final(store).next_graph_id == old(store).next_graph_id + 1
                },
                Err(e) => {
                    &&& old(store).next_graph_id == i32::MAX
                    &&& *final(store) == *old(store)
                    &&& e.status_code == 500
                    &&& e.message@ == exhausted_text()
                },
            },
    {
        if store.next_graph_id == i32::MAX {
            return Err(ids_exhausted());
        }
        let id = store.next_graph_id;
        let row = Graph {
            id,
            graph_label: graph.graph_label,
            translate_x: Number { bits: DEFAULT_TRANSLATE },
            translate_y: Number { bits: DEFAULT_TRANSLATE },
            scale: Number { bits: DEFAULT_SCALE },
            created_at: now,
            updated_at: None,
        };
        store.graphs.push(row.clone());
        store.next_graph_id = id + 1;
        proof {
            assert(graph_ids(store.graphs@) =~= graph_ids(old(store).graphs@).push(id));
            keys_after_push(graph_ids(old(store).graphs@), id);
            refs_after_key_push(node_graph_refs(store.nodes@), graph_ids(old(store).graphs@), id);
        }
        Ok(row)
    }

    /// Applies the fields that the payload holds to the row with this
    /// identifier, sets its update time, and returns the row as it then
    /// stands. Fails with 404, and changes nothing, when the table has no
    /// such row.
    pub fn patch(store: &mut Store, id: i32, graph: GraphPatch, now: Timestamp) -> (r: Result<
        Graph,
        GraphError,
    >)
        requires
            old(store).wf(),
        ensures
            final(store).wf(),
            final(store).nodes == old(store).nodes,
            final(store).edges == old(store).edges,
            final(store).next_graph_id == old(store).next_graph_id,
            final(store).next_node_id == old(store).next_node_id,
            final(store).next_edge_id == old(store).next_edge_id,
            match r {
                Ok(row) => {
                    &&& has_graph(old(store).graphs@, id)
                    &&& row == patched_graph(graph_by_id(old(store).graphs@, id), graph, now)
                    &&& final(store).graphs@ == old(store).graphs@.update(
                        graph_index(old(store).graphs@, id),
                        row,
                    )
                },
                Err(e) => {
                    &&& !has_graph(old(store).graphs@, id)
                    &&& *final(store) == *old(store)
                    &&& e.status_code == 404
                    &&& e.message@ == "Record not found"@
                },
            },
    {
        match position(&store.graphs, id) {
            Some(i) => {
                let current = &store.graphs[i];
                let row = Graph {
                    id: current.id,
                    graph_label: current.graph_label.clone(),
                    translate_x: match graph.translate_x {
                        Some(v) => v,
                        None => current.translate_x,
                    },
                    translate_y: match graph.translate_y {
                        Some(v) => v,
                        None => current.translate_y,
                    },
                    scale: match graph.scale {
                        Some(v) => v,
                        None => current.scale,
                    },
                    created_at: current.created_at,
                    updated_at: Some(now),
                };
                store.graphs.set(i, row.clone());
                proof {
                    assert(graph_ids(store.graphs@) =~= graph_ids(old(store).graphs@));
                }
                Ok(row)
            },
            None => Err(GraphError::not_found()),
        }
    }

    /// Removes the row with this identifier and returns how many rows went:
    /// 1 when the table had it, 0 when not. A graph that nodes belong to is
    /// not removed: that fails with 409 and changes nothing.
    pub fn delete(store: &mut Store, id: i32) -> (r: Result<usize, GraphError>)
        requires
            old(store).wf(),
        ensures
            final(store).wf(),
            final(store).nodes == old(store).nodes,
            final(store).edges == old(store).edges,
            final(store).next_graph_id == old(store).next_graph_id,
            final(store).next_node_id == old(store).next_node_id,
            final(store).next_edge_id == old(store).next_edge_id,
            match r {
                Ok(count) => {
                    &&& !graph_in_use(old(store).nodes@, id)
                    &&& !has_graph(final(store).graphs@, id)
                    &&& if has_graph(old(store).graphs@, id) {
                        &&& count == 1
                        &&& final(store).graphs@ == old(store).graphs@.remove(
                            graph_index(old(store).graphs@, id),
                        )
                    } else {
                        count == 0 && *final(store) == *old(store)
                    }
                },
                Err(e) => {
                    &&& graph_in_use(old(store).nodes@, id)
                    &&& *final(store) == *old(store)
                    &&& e.status_code == 409
                    &&& e.message@ == graph_in_use_text()
                },
            },
    {
        if in_use(&store.nodes, id) {
            return Err(
                GraphError::conflict(
                    "update or delete on table \"graph\" violates foreign key constraint \"node_graph_id_fkey\" on table \"node\"",
                ),
            );
        }
        match position(&store.graphs, id) {
            Some(i) => {
                store.graphs.remove(i);
                proof {
                    let before = graph_ids(old(store).graphs@);
                    let after = graph_ids(store.graphs@);
                    assert(after =~= before.remove(i as int));
                    keys_after_remove(before, store.next_graph_id, i as int);
                    refs_after_key_remove(node_graph_refs(store.nodes@), before, i as int);
                    assert forall|k: int| 0 <= k < store.graphs@.len() implies (
                    #[trigger] store.graphs@[k]).id != id by {
                        assert(after[k] == store.graphs@[k].id);
                    }
                }
                Ok(1)
            },
            None => Ok(0),
        }
    }
}

/// A graph together with its nodes and the edges that start at them.
#[derive(Debug, PartialEq, Eq)]
pub struct ExtendedGraph {
    pub graph: Graph,
    pub nodes: Vec<Node>,
    pub edges: Vec<Edge>,
}

/// The test that a node belongs to the graph `id`.
pub open spec fn in_graph(id: i32) -> spec_fn(Node) -> bool {
    |node: Node| node.graph_id == id
}

/// The test that an edge starts at one of `nodes`.
pub open spec fn starts_among(nodes: Seq<Node>) -> spec_fn(Edge) -> bool {
    |edge: Edge| has_node(nodes, edge.source_id)
}

/// The nodes of the graph `id`, in the table's order.
pub open spec fn nodes_of(rows: Seq<Node>, id: i32) -> Seq<Node> {
    rows.filter(in_graph(id))
}

/// The edges that start at one of `nodes`, in the table's order.
pub open spec fn edges_from(rows: Seq<Edge>, nodes: Seq<Node>) -> Seq<Edge> {
    rows.filter(starts_among(nodes))
}

/// Filtering one row more either appends that row or changes nothing.
proof fn filter_step<A>(rows: Seq<A>, keep: spec_fn(A) -> bool, i: int)
    requires
        0 <= i < rows.len(),
    ensures
        rows.take(i + 1).filter(keep) == if keep(rows[i]) {
            rows.take(i).filter(keep).push(rows[i])
        } else {
            rows.take(i).filter(keep)
        },
{
    reveal(Seq::filter);
    assert(rows.take(i + 1).drop_last() =~= rows.take(i));
}

/// Whether one of `nodes` has this identifier.
fn among(nodes: &Vec<Node>, id: i32) -> (found: bool)
    ensures
        found == has_node(nodes@, id),
{
    let mut i: usize = 0;
    while i < nodes.len()
        invariant
            i <= nodes@.len(),
            forall|j: int| 0 <= j < i ==> (#[trigger] nodes@[j]).id != id,
        decreases nodes@.len() - i,
    {
        if nodes[i].id == id {
            return true;
        }
        i += 1;
    }
    false
}

impl ExtendedGraph {
    fn new(graph: Graph, nodes: Vec<Node>, edges: Vec<Edge>) -> (x: ExtendedGraph)
        ensures
            x.graph == graph,
            x.nodes == nodes,
            x.edges == edges,
    {
        ExtendedGraph { graph, nodes, edges }
    }

    /// The graph with this identifier, the nodes that belong to it, and the
    /// edges that start at one of those nodes; 404 when there is no such
    /// graph. Rows come in their table's order.
    pub fn find(store: &Store, id: i32) -> (r: Result<ExtendedGraph, GraphError>)
        ensures
            match r {
                Ok(x) => {
                    &&& has_graph(store.graphs@, id)
                    &&& x.graph == graph_by_id(store.graphs@, id)
                    &&& x.nodes@ == nodes_of(store.nodes@, id)
                    &&& x.edges@ == edges_from(store.edges@, x.nodes@)
                },
                Err(e) => !has_graph(store.graphs@, id) && e.status_code == 404 && e.message@
                    == "Record not found"@,
            },
    {
        let graph = match Graph::find(store, id) {
            Ok(graph) => graph,
            Err(e) => {
                return Err(e);
            },
        };
        let mut nodes: Vec<Node> = Vec::new();
        let mut i: usize = 0;
        assert(store.nodes@.take(0).filter(in_graph(id)) =~= Seq::<Node>::empty()) by {
            reveal(Seq::filter);
        }
        while i < store.nodes.len()
            invariant
                i <= store.nodes@.len(),
                nodes@ == store.nodes@.take(i as int).filter(in_graph(id)),
            decreases store.nodes@.len() - i,
        {
            proof {
                filter_step(store.nodes@, in_graph(id), i as int);
            }
            if store.nodes[i].graph_id == id {
                nodes.push(store.nodes[i].clone());
            }
            i += 1;
        }
        assert(store.nodes@.take(i as int) =~= store.nodes@);
        let mut edges: Vec<Edge> = Vec::new();
        let mut k: usize = 0;
        assert(store.edges@.take(0).filter(starts_among(nodes@)) =~= Seq::<Edge>::empty()) by {
            reveal(Seq::filter);
        }
        while k < store.edges.len()
            invariant
                k <= store.edges@.len(),
                edges@ == store.edges@.take(k as int).filter(starts_among(nodes@)),
            decreases store.edges@.len() - k,
        {
            proof {
                filter_step(store.edges@, starts_among(nodes@), k as int);
            }
            if among(&nodes, store.edges[k].source_id) {
                edges.push(store.edges[k].clone());
            }
            k += 1;
        }
        assert(store.edges@.take(k as int) =~= store.edges@);
        Ok(ExtendedGraph::new(graph, nodes, edges))
    }
}

/// Read after write: after an insert, the table has a row with the new
/// identifier, and the row with that identifier is the one that the insert
/// wrote.
pub proof fn created_graph_is_found(rows: Seq<Graph>, next: i32, init: GraphInit, now: Timestamp)
    requires
        keys_valid(graph_ids(rows), next),
    ensures
        has_graph(rows.push(new_graph(next, init, now)), next),
        graph_by_id(rows.push(new_graph(next, init, now)), next) == new_graph(next, init, now),
{
    let row = new_graph(next, init, now);
    let after = rows.push(row);
    assert(after[rows.len() as int].id == next);
    assert forall|j: int| 0 <= j < rows.len() implies #[trigger] graph_ids(after)[j] != next by {
        assert(graph_ids(rows)[j] == graph_ids(after)[j]);
    }
    first_key_is_unique(graph_ids(after), next, rows.len() as int);
}

/// A partial update changes the fields that the payload holds and the update
/// time, and nothing else: the other fields of the row and all other rows
/// stay as they were, and the row with the identifier is then the row as
/// updated.
pub proof fn patched_graph_keeps_the_rest(
    rows: Seq<Graph>,
    next: i32,
    id: i32,
    patch: GraphPatch,
    now: Timestamp,
)
    requires
        keys_valid(graph_ids(rows), next),
        has_graph(rows, id),
    ensures
        ({
            let at = graph_index(rows, id);
            let old_row = graph_by_id(rows, id);
            let row = patched_graph(old_row, patch, now);
            let after = rows.update(at, row);
            &&& 0 <= at < rows.len()
            &&& old_row.id == id
            &&& row.id == old_row.id
            &&& row.graph_label == old_row.graph_label
            &&& row.created_at == old_row.created_at
            &&& row.updated_at == Some(now)
            &&& patch.translate_x is None ==> row.translate_x == old_row.translate_x
            &&& patch.translate_y is None ==> row.translate_y == old_row.translate_y
            &&& patch.scale is None ==> row.scale == old_row.scale
            &&& patch.translate_x is Some ==> row.translate_x == patch.translate_x->Some_0
            &&& patch.translate_y is Some ==> row.translate_y == patch.translate_y->Some_0
            &&& patch.scale is Some ==> row.scale == patch.scale->Some_0
            &&& forall|j: int| 0 <= j < rows.len() && j != at ==> after[j] == rows[j]
            &&& has_graph(after, id)
            &&& graph_by_id(after, id) == row
        }),
{
    let found = choose|i: int| 0 <= i < rows.len() && #[trigger] rows[i].id == id;
    valid_key_is_first(graph_ids(rows), next, found);
    let row = patched_graph(rows[found], patch, now);
    let after = rows.update(found, row);
    assert(after[found].id == id);
    assert(graph_ids(after) =~= graph_ids(rows));
}

/// Once the row with an identifier is removed, the table is one row shorter
/// and has no row with that identifier. (A graph that nodes belong to is
/// never removed.)
pub proof fn deleted_graph_is_gone(rows: Seq<Graph>, next: i32, id: i32)
    requires
        keys_valid(graph_ids(rows), next),
        has_graph(rows, id),
    ensures
        0 <= graph_index(rows, id) < rows.len(),
        rows.remove(graph_index(rows, id)).len() == rows.len() - 1,
        !has_graph(rows.remove(graph_index(rows, id)), id),
{
    let found = choose|i: int| 0 <= i < rows.len() && #[trigger] rows[i].id == id;
    valid_key_is_first(graph_ids(rows), next, found);
    let after = rows.remove(found);
    assert(graph_ids(after) =~= graph_ids(rows).remove(found));
    keys_after_remove(graph_ids(rows), next, found);
    assert forall|k: int| 0 <= k < after.len() implies (#[trigger] after[k]).id != id by {
        assert(graph_ids(after)[k] == after[k].id);
    }
}

/// The aggregate read holds exactly the nodes of the graph and exactly the
/// edges that start at one of them: a row is among the nodes if and only if
/// it is a node of the table with that graph's identifier, and among the
/// edges if and only if it is an edge of the table whose source is such a
/// node.
pub proof fn aggregate_holds_exactly(nodes: Seq<Node>, edges: Seq<Edge>, id: i32)
    ensures
        forall|node: Node| #[trigger]
            nodes_of(nodes, id).contains(node) <==> nodes.contains(node) && node.graph_id == id,
        forall|edge: Edge| #[trigger]
            edges_from(edges, nodes_of(nodes, id)).contains(edge) <==> edges.contains(edge)
                && exists|node: Node|
                nodes.contains(node) && node.graph_id == id && #[trigger] node.id
                    == edge.source_id,
{
    let members = nodes_of(nodes, id);
    assert forall|node: Node| #[trigger]
        members.contains(node) <==> nodes.contains(node) && node.graph_id == id by {
        if members.contains(node) {
            nodes.lemma_filter_contains_rev(in_graph(id), node);
            let j = choose|j: int| 0 <= j < members.len() && members[j] == node;
            nodes.lemma_filter_pred(in_graph(id), j);
        }
        if nodes.contains(node) && node.graph_id == id {
            let j = choose|j: int| 0 <= j < nodes.len() && nodes[j] == node;
            nodes.lemma_filter_contains(in_graph(id), j);
        }
    }
    let picked = edges_from(edges, members);
    assert forall|edge: Edge| #[trigger]
        picked.contains(edge) <==> edges.contains(edge) && exists|node: Node|
            nodes.contains(node) && node.graph_id == id && #[trigger] node.id
                == edge.source_id by {
        if picked.contains(edge) {
            edges.lemma_filter_contains_rev(starts_among(members), edge);
            let j = choose|j: int| 0 <= j < picked.len() && picked[j] == edge;
            edges.lemma_filter_pred(starts_among(members), j);
            assert(has_node(members, edge.source_id));
            let k = choose|k: int| 0 <= k < members.len() && members[k].id == edge.source_id;
            assert(members.contains(members[k]));
            assert(members[k].id == edge.source_id);
        }
        if edges.contains(edge) && exists|node: Node|
            nodes.contains(node) && node.graph_id == id && #[trigger] node.id
                == edge.source_id {
            let node = choose|node: Node|
                nodes.contains(node) && node.graph_id == id && #[trigger] node.id
                    == edge.source_id;
            assert(members.contains(node));
            let k = choose|k: int| 0 <= k < members.len() && members[k] == node;
            assert(members[k].id == edge.source_id);
            assert(has_node(members, edge.source_id));
            let j = choose|j: int| 0 <= j < edges.len() && edges[j] == edge;
            edges.lemma_filter_contains(starts_among(members), j);
        }
    }
}

} // verus!
