use graph_backend::api_error::GraphError;
use graph_backend::db::{Number, Store, Timestamp};
use graph_backend::edge::{Edge, EdgeInit, EdgePatch};
use graph_backend::graph::{ExtendedGraph, Graph, GraphInit, GraphPatch};
use graph_backend::node::{Node, NodeInit, NodePatch};

fn at(secs: i64) -> Timestamp {
    Timestamp { secs, nanos: 0 }
}

fn num(value: f64) -> Number {
    Number { bits: value.to_bits() }
}

fn graph_init(label: &str) -> GraphInit {
    GraphInit { graph_label: label.to_string() }
}

fn node_init(label: &str, graph_id: i32, x: f64, y: f64) -> NodeInit {
    NodeInit { node_label: label.to_string(), graph_id, x_coord: num(x), y_coord: num(y) }
}

fn edge_init(label: &str, source_id: i32, target_id: i32) -> EdgeInit {
    EdgeInit { edge_label: label.to_string(), source_id, target_id }
}

#[test]
fn fresh_store_is_empty() {
    let store = Store::new();
    assert_eq!(Graph::find_all(&store), Ok(vec![]));
    assert_eq!(Graph::find(&store, 1), Err(GraphError::not_found()));
    assert_eq!(Node::find(&store, 1), Err(GraphError::not_found()));
    assert_eq!(Edge::find(&store, 1), Err(GraphError::not_found()));
}

#[test]
fn created_graph_has_defaults_and_is_found() {
    let mut store = Store::new();
    let made = Graph::create(&mut store, graph_init("demo"), at(10)).unwrap();
    assert_eq!(
        made,
        Graph {
            id: 1,
            graph_label: "demo".to_string(),
            translate_x: num(0.0),
            translate_y: num(0.0),
            scale: num(1.0),
            created_at: at(10),
            updated_at: None,
        }
    );
    assert_eq!(Graph::find(&store, made.id), Ok(made));
    let second = Graph::create(&mut store, graph_init("other"), at(11)).unwrap();
    assert_eq!(second.id, 2);
    assert_eq!(Graph::find_all(&store).unwrap().len(), 2);
    assert_eq!(Graph::find(&store, 2), Ok(second));
}

#[test]
fn created_node_and_edge_are_found() {
    let mut store = Store::new();
    let g = Graph::create(&mut store, graph_init("g"), at(1)).unwrap();
    let a = Node::create(&mut store, node_init("a", g.id, 1.5, -2.0), at(2)).unwrap();
    let b = Node::create(&mut store, node_init("b", g.id, 0.0, 0.0), at(3)).unwrap();
    assert_eq!(
        a,
        Node {
            id: 1,
            node_label: "a".to_string(),
            graph_id: 1,
            x_coord: num(1.5),
            y_coord: num(-2.0),
            created_at: at(2),
            updated_at: None,
        }
    );
    assert_eq!(Node::find(&store, a.id), Ok(a));
    let e = Edge::create(&mut store, edge_init("ab", 1, b.id), at(4)).unwrap();
    assert_eq!(
        e,
        Edge {
            id: 1,
            edge_label: "ab".to_string(),
            source_id: 1,
            target_id: 2,
            created_at: at(4),
            updated_at: None,
        }
    );
    assert_eq!(Edge::find(&store, e.id), Ok(e));
}

#[test]
fn graph_patch_changes_only_named_fields() {
    let mut store = Store::new();
    let made = Graph::create(&mut store, graph_init("demo"), at(10)).unwrap();
    let other = Graph::create(&mut store, graph_init("other"), at(11)).unwrap();
    let patch = GraphPatch { translate_x: Some(num(4.0)), translate_y: None, scale: None };
    let patched = Graph::patch(&mut store, made.id, patch, at(20)).unwrap();
    assert_eq!(patched.id, made.id);
    assert_eq!(patched.graph_label, "demo");
    assert_eq!(patched.translate_x, num(4.0));
    assert_eq!(patched.translate_y, made.translate_y);
    assert_eq!(patched.scale, made.scale);
    assert_eq!(patched.created_at, at(10));
    assert_eq!(patched.updated_at, Some(at(20)));
    assert_eq!(Graph::find(&store, made.id), Ok(patched));
    assert_eq!(Graph::find(&store, other.id), Ok(other));
    let all = GraphPatch { translate_x: Some(num(1.0)), translate_y: Some(num(2.0)), scale: Some(num(3.0)) };
    let patched = Graph::patch(&mut store, 1, all, at(30)).unwrap();
    assert_eq!((patched.translate_x, patched.translate_y, patched.scale), (num(1.0), num(2.0), num(3.0)));
    assert_eq!(patched.updated_at, Some(at(30)));
}

#[test]
fn empty_patch_sets_only_the_update_time() {
    let mut store = Store::new();
    let g = Graph::create(&mut store, graph_init("g"), at(1)).unwrap();
    let n = Node::create(&mut store, node_init("n", g.id, 1.0, 2.0), at(2)).unwrap();
    let patch = NodePatch { node_label: None, x_coord: None, y_coord: None };
    let patched = Node::patch(&mut store, n.id, patch, at(9)).unwrap();
    assert_eq!(patched, Node { updated_at: Some(at(9)), ..n });
}

#[test]
fn node_and_edge_patch_change_only_named_fields() {
    let mut store = Store::new();
    let g = Graph::create(&mut store, graph_init("g"), at(1)).unwrap();
    let n = Node::create(&mut store, node_init("n", g.id, 1.0, 2.0), at(2)).unwrap();
    let e = Edge::create(&mut store, edge_init("loop", n.id, n.id), at(3)).unwrap();
    let patch = NodePatch { node_label: Some("m".to_string()), x_coord: None, y_coord: Some(num(7.0)) };
    let patched = Node::patch(&mut store, n.id, patch, at(5)).unwrap();
    assert_eq!(
        patched,
        Node { node_label: "m".to_string(), y_coord: num(7.0), updated_at: Some(at(5)), ..n }
    );
    assert_eq!(Node::find(&store, 1), Ok(patched));
    let patched = Edge::patch(&mut store, e.id, EdgePatch { edge_label: Some("self".to_string()) }, at(6)).unwrap();
    assert_eq!(patched, Edge { edge_label: "self".to_string(), updated_at: Some(at(6)), ..e });
    let kept = Edge::patch(&mut store, 1, EdgePatch { edge_label: None }, at(7)).unwrap();
    assert_eq!(kept.edge_label, "self");
    assert_eq!(kept.updated_at, Some(at(7)));
}

#[test]
fn patch_of_missing_row_is_not_found() {
    let mut store = Store::new();
    let patch = GraphPatch { translate_x: None, translate_y: None, scale: Some(num(2.0)) };
    assert_eq!(Graph::patch(&mut store, 5, patch, at(1)), Err(GraphError::not_found()));
    let patch = NodePatch { node_label: None, x_coord: None, y_coord: None };
    assert_eq!(Node::patch(&mut store, 5, patch, at(1)), Err(GraphError::not_found()));
    assert_eq!(
        Edge::patch(&mut store, 5, EdgePatch { edge_label: None }, at(1)),
        Err(GraphError::not_found())
    );
    assert_eq!(store, Store::new());
}

#[test]
fn delete_counts_and_removes() {
    let mut store = Store::new();
    let g = Graph::create(&mut store, graph_init("g"), at(1)).unwrap();
    let h = Graph::create(&mut store, graph_init("h"), at(2)).unwrap();
    assert_eq!(Graph::delete(&mut store, g.id), Ok(1));
    assert_eq!(Graph::find(&store, g.id), Err(GraphError::not_found()));
    assert_eq!(Graph::delete(&mut store, g.id), Ok(0));
    assert_eq!(Graph::delete(&mut store, 77), Ok(0));
    assert_eq!(Graph::find_all(&store), Ok(vec![h]));
    let next = Graph::create(&mut store, graph_init("i"), at(3)).unwrap();
    assert_eq!(next.id, 3);
}

#[test]
fn delete_of_node_and_edge() {
    let mut store = Store::new();
    let g = Graph::create(&mut store, graph_init("g"), at(1)).unwrap();
    let n = Node::create(&mut store, node_init("n", g.id, 0.0, 0.0), at(2)).unwrap();
    let e = Edge::create(&mut store, edge_init("e", n.id, n.id), at(3)).unwrap();
    assert_eq!(Edge::delete(&mut store, e.id), Ok(1));
    assert_eq!(Edge::find(&store, e.id), Err(GraphError::not_found()));
    assert_eq!(Edge::delete(&mut store, e.id), Ok(0));
    assert_eq!(Node::delete(&mut store, n.id), Ok(1));
    assert_eq!(Node::find(&store, n.id), Err(GraphError::not_found()));
    assert_eq!(Node::delete(&mut store, n.id), Ok(0));
}

#[test]
fn graph_with_nodes_is_not_deleted() {
    let mut store = Store::new();
    let g = Graph::create(&mut store, graph_init("g"), at(1)).unwrap();
    let n = Node::create(&mut store, node_init("n", g.id, 0.0, 0.0), at(2)).unwrap();
    let e = Graph::delete(&mut store, g.id).unwrap_err();
    assert_eq!(e.status_code, 409);
    assert_eq!(
        e.message,
        "update or delete on table \"graph\" violates foreign key constraint \"node_graph_id_fkey\" on table \"node\""
    );
    assert_eq!(Graph::find(&store, g.id), Ok(g));
    assert_eq!(Node::find(&store, n.id), Ok(n));
    assert_eq!(Node::delete(&mut store, 1), Ok(1));
    assert_eq!(Graph::delete(&mut store, 1), Ok(1));
    assert_eq!(Graph::find(&store, 1), Err(GraphError::not_found()));
}

#[test]
fn node_with_edges_is_not_deleted() {
    let mut store = Store::new();
    let g = Graph::create(&mut store, graph_init("g"), at(1)).unwrap();
    let a = Node::create(&mut store, node_init("a", g.id, 0.0, 0.0), at(2)).unwrap();
    let b = Node::create(&mut store, node_init("b", g.id, 0.0, 0.0), at(2)).unwrap();
    let ab = Edge::create(&mut store, edge_init("ab", a.id, b.id), at(3)).unwrap();
    let e = Node::delete(&mut store, a.id).unwrap_err();
    assert_eq!(e.status_code, 409);
    assert_eq!(
        e.message,
        "update or delete on table \"node\" violates foreign key constraint \"edge_source_id_fkey\" on table \"edge\""
    );
    let e = Node::delete(&mut store, b.id).unwrap_err();
    assert_eq!(e.status_code, 409);
    assert_eq!(
        e.message,
        "update or delete on table \"node\" violates foreign key constraint \"edge_target_id_fkey\" on table \"edge\""
    );
    assert_eq!(Node::find(&store, a.id), Ok(a));
    assert_eq!(Edge::find(&store, ab.id), Ok(ab));
    assert_eq!(Edge::delete(&mut store, 1), Ok(1));
    assert_eq!(Node::delete(&mut store, 1), Ok(1));
    assert_eq!(Node::delete(&mut store, 2), Ok(1));
}

#[test]
fn patch_payloads_know_when_they_are_empty() {
    assert!(GraphPatch { translate_x: None, translate_y: None, scale: None }.is_empty());
    assert!(!GraphPatch { translate_x: None, translate_y: Some(num(1.0)), scale: None }.is_empty());
    assert!(NodePatch { node_label: None, x_coord: None, y_coord: None }.is_empty());
    assert!(!NodePatch { node_label: Some(String::new()), x_coord: None, y_coord: None }.is_empty());
    assert!(EdgePatch { edge_label: None }.is_empty());
    assert!(!EdgePatch { edge_label: Some("e".to_string()) }.is_empty());
}

#[test]
fn node_without_graph_is_a_conflict() {
    let mut store = Store::new();
    let before = Store::new();
    let r = Node::create(&mut store, node_init("n", 1, 0.0, 0.0), at(1));
    let e = r.unwrap_err();
    assert_eq!(e.status_code, 409);
    assert_eq!(
        e.message,
        "insert or update on table \"node\" violates foreign key constraint \"node_graph_id_fkey\""
    );
    assert_eq!(store, before);
    assert_eq!(e.error_response().status_code, 409);
}

#[test]
fn edge_without_nodes_is_a_conflict() {
    let mut store = Store::new();
    let g = Graph::create(&mut store, graph_init("g"), at(1)).unwrap();
    let n = Node::create(&mut store, node_init("n", g.id, 0.0, 0.0), at(2)).unwrap();
    let e = Edge::create(&mut store, edge_init("e", 9, n.id), at(3)).unwrap_err();
    assert_eq!(e.status_code, 409);
    assert_eq!(
        e.message,
        "insert or update on table \"edge\" violates foreign key constraint \"edge_source_id_fkey\""
    );
    let e = Edge::create(&mut store, edge_init("e", n.id, 9), at(3)).unwrap_err();
    assert_eq!(e.status_code, 409);
    assert_eq!(
        e.message,
        "insert or update on table \"edge\" violates foreign key constraint \"edge_target_id_fkey\""
    );
    assert_eq!(Edge::find(&store, 1), Err(GraphError::not_found()));
}

#[test]
fn used_up_identifiers_fail_the_insert() {
    let mut store = Store::new();
    store.next_graph_id = i32::MAX;
    let e = Graph::create(&mut store, graph_init("g"), at(1)).unwrap_err();
    assert_eq!(e.status_code, 500);
    assert_eq!(e.message, "Diesel error: nextval: reached maximum value of sequence");
    assert_eq!(Graph::find_all(&store), Ok(vec![]));
    store.next_graph_id = i32::MAX - 1;
    let g = Graph::create(&mut store, graph_init("g"), at(1)).unwrap();
    assert_eq!(g.id, i32::MAX - 1);
    store.next_node_id = i32::MAX;
    let e = Node::create(&mut store, node_init("n", g.id, 0.0, 0.0), at(1)).unwrap_err();
    assert_eq!(e.status_code, 500);
}

#[test]
fn aggregate_read_of_missing_graph_is_not_found() {
    let store = Store::new();
    assert_eq!(ExtendedGraph::find(&store, 1), Err(GraphError::not_found()));
}

#[test]
fn aggregate_read_holds_own_nodes_and_their_edges() {
    let mut store = Store::new();
    let g = Graph::create(&mut store, graph_init("g"), at(1)).unwrap();
    let h = Graph::create(&mut store, graph_init("h"), at(1)).unwrap();
    let a = Node::create(&mut store, node_init("a", g.id, 0.0, 0.0), at(2)).unwrap();
    let x = Node::create(&mut store, node_init("x", h.id, 0.0, 0.0), at(2)).unwrap();
    let b = Node::create(&mut store, node_init("b", g.id, 1.0, 1.0), at(2)).unwrap();
    let ab = Edge::create(&mut store, edge_init("ab", a.id, b.id), at(3)).unwrap();
    let xa = Edge::create(&mut store, edge_init("xa", x.id, a.id), at(3)).unwrap();
    let bx = Edge::create(&mut store, edge_init("bx", b.id, x.id), at(3)).unwrap();
    let got = ExtendedGraph::find(&store, g.id).unwrap();
    assert_eq!(got.graph, g);
    assert_eq!(got.nodes, vec![a, b]);
    assert_eq!(got.edges, vec![ab, bx]);
    let got = ExtendedGraph::find(&store, h.id).unwrap();
    assert_eq!(got.graph, h);
    assert_eq!(got.nodes, vec![x]);
    assert_eq!(got.edges, vec![xa]);
}
