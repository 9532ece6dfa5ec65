use graph_backend::api_error::GraphError;
use graph_backend::db::{Number, Store, Timestamp};
use graph_backend::edge::{Edge, EdgeInit};
use graph_backend::graph::{ExtendedGraph, Graph, GraphInit, GraphPatch};
use graph_backend::node::{Node, NodeInit};
use graph_backend::response::{
    get_error_response, index, not_found, ContentType, DeletedReply, Redirect,
};

fn now() -> Timestamp {
    Timestamp { secs: 1_600_000_000, nanos: 500 }
}

#[test]
fn posting_a_graph_redirects_and_the_graph_reads_back() {
    let mut store = Store::new();
    let created = Graph::create(&mut store, GraphInit { graph_label: "demo".to_string() }, now());
    let id = created.as_ref().unwrap().id;
    let reply = graph_backend::graph::routes::create(created).unwrap();
    assert_eq!(reply, Redirect { status_code: 303, location: "/graphs".to_string() });
    let reply = graph_backend::graph::routes::find(ExtendedGraph::find(&store, id)).unwrap();
    assert_eq!(reply.status_code, 200);
    assert_eq!(reply.body.graph.graph_label, "demo");
    assert_eq!(reply.body.graph.translate_x, Number { bits: 0.0f64.to_bits() });
    assert_eq!(reply.body.graph.translate_y, Number { bits: 0.0f64.to_bits() });
    assert_eq!(reply.body.graph.updated_at, None);
    assert_eq!(reply.body.nodes, vec![]);
    assert_eq!(reply.body.edges, vec![]);
}

#[test]
fn graph_pages_carry_their_titles() {
    let mut store = Store::new();
    let g = Graph::create(&mut store, GraphInit { graph_label: "demo".to_string() }, now()).unwrap();
    let page = graph_backend::graph::routes::find_all(Graph::find_all(&store)).unwrap();
    assert_eq!(page.title, "Graphs");
    assert_eq!(page.graphs, vec![g]);
    let page = graph_backend::graph::routes::show(1, Graph::find(&store, 1)).unwrap();
    assert_eq!(page.title, "demo");
    assert_eq!(page.graph_id, 1);
    assert_eq!(graph_backend::graph::routes::new().title, "New Graph");
    assert_eq!(
        graph_backend::graph::routes::show(2, Graph::find(&store, 2)),
        Err(GraphError::not_found())
    );
}

#[test]
fn graph_patch_and_delete_replies() {
    let mut store = Store::new();
    Graph::create(&mut store, GraphInit { graph_label: "demo".to_string() }, now()).unwrap();
    let patch = GraphPatch { translate_x: None, translate_y: None, scale: Some(Number { bits: 2.0f64.to_bits() }) };
    let reply = graph_backend::graph::routes::patch(Graph::patch(&mut store, 1, patch, now())).unwrap();
    assert_eq!(reply.status_code, 200);
    assert_eq!(reply.body.scale, Number { bits: 2.0f64.to_bits() });
    let reply = graph_backend::graph::routes::delete(Graph::delete(&mut store, 1)).unwrap();
    assert_eq!(reply, Redirect { status_code: 303, location: "/graphs".to_string() });
    let reply = graph_backend::graph::routes::delete(Graph::delete(&mut store, 1)).unwrap();
    assert_eq!(reply.status_code, 303);
}

#[test]
fn node_and_edge_replies_use_the_status_of_their_verb() {
    let mut store = Store::new();
    Graph::create(&mut store, GraphInit { graph_label: "g".to_string() }, now()).unwrap();
    let zero = Number { bits: 0 };
    let init_node = NodeInit { node_label: "n".to_string(), graph_id: 1, x_coord: zero, y_coord: zero };
    let reply = graph_backend::node::routes::create(Node::create(&mut store, init_node, now())).unwrap();
    assert_eq!(reply.status_code, 201);
    assert_eq!(reply.body.id, 1);
    let reply = graph_backend::node::routes::find(Node::find(&store, 1)).unwrap();
    assert_eq!(reply.status_code, 200);
    let init_edge = EdgeInit { edge_label: "e".to_string(), source_id: 1, target_id: 1 };
    let reply = graph_backend::edge::routes::create(Edge::create(&mut store, init_edge, now())).unwrap();
    assert_eq!(reply.status_code, 201);
    let reply = graph_backend::edge::routes::find(Edge::find(&store, 1)).unwrap();
    assert_eq!(reply.status_code, 200);
    assert_eq!(reply.body.edge_label, "e");
    let reply = graph_backend::edge::routes::delete(Edge::delete(&mut store, 1));
    assert_eq!(reply, Ok(DeletedReply { status_code: 200, deleted: 1 }));
    let reply = graph_backend::node::routes::delete(Node::delete(&mut store, 9));
    assert_eq!(reply, Ok(DeletedReply { status_code: 200, deleted: 0 }));
    assert_eq!(
        graph_backend::node::routes::find(Node::find(&store, 9)),
        Err(GraphError::not_found())
    );
}

#[test]
fn failures_pass_through_the_routes() {
    let e = GraphError::new(409, "taken".to_string());
    assert_eq!(graph_backend::graph::routes::create(Err(GraphError::new(409, "taken".to_string()))), Err(e));
    let e = GraphError::new(500, "down".to_string());
    assert_eq!(graph_backend::node::routes::delete(Err(GraphError::new(500, "down".to_string()))), Err(e));
}

#[test]
fn root_moves_to_the_list() {
    assert_eq!(index(), Redirect { status_code: 301, location: "/graphs".to_string() });
}

#[test]
fn error_page_falls_back_to_plain_text() {
    let page = not_found(404);
    assert_eq!(page.error, "Page not found");
    let reply = get_error_response(&page, Some("<h1>404</h1>".to_string()));
    assert_eq!(reply.status_code, 404);
    assert_eq!(reply.content_type, ContentType::Html);
    assert_eq!(reply.body, "<h1>404</h1>");
    let reply = get_error_response(&page, None);
    assert_eq!(reply.status_code, 404);
    assert_eq!(reply.content_type, ContentType::PlainText);
    assert_eq!(reply.body, "Page not found");
}
