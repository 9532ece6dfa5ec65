//! The persistent state: three tables of rows and, for each, the identifier
//! that the next new row gets.

use vstd::prelude::*;
use vstd::string::*;
use crate::api_error::GraphError;
use crate::edge::Edge;
use crate::graph::Graph;
use crate::node::Node;

verus! {

/// A point in time without a zone: seconds since the epoch and the
/// nanoseconds within the second.
#[derive(Clone, Copy, Debug, PartialEq, Eq, Structural)]
pub struct Timestamp {
    pub secs: i64,
    pub nanos: u32,
}

/// A double-precision number, carried as its IEEE 754 bit pattern. The
/// backend stores and returns such numbers and never computes with them.
#[derive(Clone, Copy, Debug, PartialEq, Eq, Structural)]
pub struct Number {
    pub bits: u64,
}

/// The three tables. A new row is appended, so each table stands in the
/// order in which its rows were inserted. A statement that would break a
/// foreign key is refused, in the words that PostgreSQL has for a
/// constraint of that name, and leaves the tables as they were.
#[derive(Debug, PartialEq, Eq)]
pub struct Store {
    pub graphs: Vec<Graph>,
    pub nodes: Vec<Node>,
    pub edges: Vec<Edge>,
    pub next_graph_id: i32,
    pub next_node_id: i32,
    pub next_edge_id: i32,
}

/// No identifier occurs twice, and each lies below the next one to give out.
pub open spec fn keys_valid(ids: Seq<i32>, next: i32) -> bool {
    &&& 1 <= next
    &&& forall|i: int| 0 <= i < ids.len() ==> 1 <= #[trigger] ids[i] < next
    &&& forall|i: int, j: int|
        0 <= i < ids.len() && 0 <= j < ids.len() && i != j ==> #[trigger] ids[i]
            != #[trigger] ids[j]
}

/// The identifier column of the graph table.
pub open spec fn graph_ids(rows: Seq<Graph>) -> Seq<i32> {
    Seq::new(rows.len(), |i: int| rows[i].id)
}

/// The identifier column of the node table.
pub open spec fn node_ids(rows: Seq<Node>) -> Seq<i32> {
    Seq::new(rows.len(), |i: int| rows[i].id)
}

/// The identifier column of the edge table.
pub open spec fn edge_ids(rows: Seq<Edge>) -> Seq<i32> {
    Seq::new(rows.len(), |i: int| rows[i].id)
}

/// Place `at` holds `id`, and no earlier place does.
pub open spec fn is_first_key(ids: Seq<i32>, id: i32, at: int) -> bool {
    &&& 0 <= at < ids.len()
    &&& ids[at] == id
    &&& forall|j: int| 0 <= j < at ==> #[trigger] ids[j] != id
}

/// The first place that holds `id`, where some place does.
pub open spec fn key_index(ids: Seq<i32>, id: i32) -> int {
    choose|at: int| is_first_key(ids, id, at)
}

/// There is only one first place.
pub proof fn first_key_is_unique(ids: Seq<i32>, id: i32, at: int)
    requires
        is_first_key(ids, id, at),
    ensures
        key_index(ids, id) == at,
{
    let chosen = key_index(ids, id);
    assert(is_first_key(ids, id, chosen));
    if chosen < at {
        assert(ids[chosen] != id);
    }
    if at < chosen {
        assert(ids[at] != id);
    }
}

/// Among valid keys, every place that holds `id` is the first.
pub proof fn valid_key_is_first(ids: Seq<i32>, next: i32, at: int)
    requires
        keys_valid(ids, next),
        0 <= at < ids.len(),
    ensures
        key_index(ids, ids[at]) == at,
{
    assert forall|j: int| 0 <= j < at implies #[trigger] ids[j] != ids[at] by {}
    first_key_is_unique(ids, ids[at], at);
}

/// A column of valid keys stays valid when the next identifier is appended
/// and the one after it becomes the next.
pub proof fn keys_after_push(ids: Seq<i32>, next: i32)
    requires
        keys_valid(ids, next),
        next < i32::MAX,
    ensures
        keys_valid(ids.push(next), (next + 1) as i32),
{
    let after = ids.push(next);
    assert forall|i: int| 0 <= i < after.len() implies 1 <= #[trigger] after[i] < next + 1 by {
        if i < ids.len() {
            assert(after[i] == ids[i]);
        }
    }
    assert forall|i: int, j: int|
        0 <= i < after.len() && 0 <= j < after.len() && i != j implies #[trigger] after[i]
        != #[trigger] after[j] by {
        if i < ids.len() {
            assert(after[i] == ids[i]);
        }
        if j < ids.len() {
            assert(after[j] == ids[j]);
        }
    }
}

/// A column of valid keys stays valid when one key is taken out, and the
/// key that went occurs no more.
pub proof fn keys_after_remove(ids: Seq<i32>, next: i32, at: int)
    requires
        keys_valid(ids, next),
        0 <= at < ids.len(),
    ensures
        keys_valid(ids.remove(at), next),
        forall|k: int| 0 <= k < ids.remove(at).len() ==> #[trigger] ids.remove(at)[k] != ids[at],
{
    let after = ids.remove(at);
    assert forall|k: int| 0 <= k < after.len() implies #[trigger] after[k] == ids[if k < at {
        k
    } else {
        k + 1
    }] by {}
    assert forall|k: int, j: int|
        0 <= k < after.len() && 0 <= j < after.len() && k != j implies #[trigger] after[k]
        != #[trigger] after[j] by {
        assert(after[k] == ids[if k < at { k } else { k + 1 }]);
        assert(after[j] == ids[if j < at { j } else { j + 1 }]);
    }
    assert forall|k: int| 0 <= k < after.len() implies #[trigger] after[k] != ids[at] by {
        assert(after[k] == ids[if k < at { k } else { k + 1 }]);
    }
}

/// The graph that each node names.
pub open spec fn node_graph_refs(rows: Seq<Node>) -> Seq<i32> {
    Seq::new(rows.len(), |i: int| rows[i].graph_id)
}

/// The node at which each edge starts.
pub open spec fn edge_source_refs(rows: Seq<Edge>) -> Seq<i32> {
    Seq::new(rows.len(), |i: int| rows[i].source_id)
}

/// The node at which each edge ends.
pub open spec fn edge_target_refs(rows: Seq<Edge>) -> Seq<i32> {
    Seq::new(rows.len(), |i: int| rows[i].target_id)
}

/// Every reference names a key that is there.
pub open spec fn refs_valid(refs: Seq<i32>, keys: Seq<i32>) -> bool {
    forall|i: int| 0 <= i < refs.len() ==> keys.contains(#[trigger] refs[i])
}

/// References stay valid when a key is added.
pub proof fn refs_after_key_push(refs: Seq<i32>, keys: Seq<i32>, key: i32)
    requires
        refs_valid(refs, keys),
    ensures
        refs_valid(refs, keys.push(key)),
{
    assert forall|i: int| 0 <= i < refs.len() implies keys.push(key).contains(
        #[trigger] refs[i],
    ) by {
        let w = choose|w: int| 0 <= w < keys.len() && keys[w] == refs[i];
        assert(keys.push(key)[w] == refs[i]);
    }
}

/// References stay valid when a key goes that none of them names.
pub proof fn refs_after_key_remove(refs: Seq<i32>, keys: Seq<i32>, at: int)
    requires
        refs_valid(refs, keys),
        0 <= at < keys.len(),
        !refs.contains(keys[at]),
    ensures
        refs_valid(refs, keys.remove(at)),
{
    assert forall|i: int| 0 <= i < refs.len() implies keys.remove(at).contains(
        #[trigger] refs[i],
    ) by {
        let w = choose|w: int| 0 <= w < keys.len() && keys[w] == refs[i];
        assert(refs.contains(refs[i]));
        let moved = if w < at {
            w
        } else {
            w - 1
        };
        assert(keys.remove(at)[moved] == refs[i]);
    }
}

/// References stay valid when one that names a key is added.
pub proof fn refs_after_push(refs: Seq<i32>, keys: Seq<i32>, named: i32)
    requires
        refs_valid(refs, keys),
        keys.contains(named),
    ensures
        refs_valid(refs.push(named), keys),
{
    assert forall|i: int| 0 <= i < refs.push(named).len() implies keys.contains(
        #[trigger] refs.push(named)[i],
    ) by {
        if i < refs.len() {
            assert(refs.push(named)[i] == refs[i]);
        }
    }
}

/// References stay valid when one of them goes.
pub proof fn refs_after_remove(refs: Seq<i32>, keys: Seq<i32>, at: int)
    requires
        refs_valid(refs, keys),
        0 <= at < refs.len(),
    ensures
        refs_valid(refs.remove(at), keys),
{
    assert forall|i: int| 0 <= i < refs.remove(at).len() implies keys.contains(
        #[trigger] refs.remove(at)[i],
    ) by {
        assert(refs.remove(at)[i] == refs[if i < at { i } else { i + 1 }]);
    }
}

/// The message of an insert into a table whose identifiers are used up.
pub open spec fn exhausted_text() -> Seq<char> {
    "Diesel error: "@ + "nextval: reached maximum value of sequence"@
}

impl Store {
    /// Each table has a primary key: its identifiers are distinct, positive
    /// and below the table's next identifier. Each node names a graph that
    /// is there, and each edge starts and ends at a node that is there.
    pub open spec fn wf(&self) -> bool {
        &&& keys_valid(graph_ids(self.graphs@), self.next_graph_id)
        &&& keys_valid(node_ids(self.nodes@), self.next_node_id)
        &&& keys_valid(edge_ids(self.edges@), self.next_edge_id)
        &&& refs_valid(node_graph_refs(self.nodes@), graph_ids(self.graphs@))
        &&& refs_valid(edge_source_refs(self.edges@), node_ids(self.nodes@))
        &&& refs_valid(edge_target_refs(self.edges@), node_ids(self.nodes@))
    }

    /// Three empty tables; the first row of each will get identifier 1.
    pub fn new() -> (store: Store)
        ensures
            store.wf(),
            store.graphs@.len() == 0,
            store.nodes@.len() == 0,
            store.edges@.len() == 0,
            store.next_graph_id == 1,
            store.next_node_id == 1,
            store.next_edge_id == 1,
    {
        Store {
            graphs: Vec::new(),
            nodes: Vec::new(),
            edges: Vec::new(),
            next_graph_id: 1,
            next_node_id: 1,
            next_edge_id: 1,
        }
    }
}

/// The error of an insert into a table whose identifiers are used up.
pub fn ids_exhausted() -> (e: GraphError)
    ensures
        e.status_code == 500,
        e.message@ == exhausted_text(),
{
    GraphError::internal("nextval: reached maximum value of sequence")
}

} // verus!
