//! What the graph routes answer, given what the table answered.

use vstd::prelude::*;
use vstd::string::*;
use crate::api_error::GraphError;
use crate::graph::{ExtendedGraph, Graph};
use crate::response::{is_redirect, to_graphs, JsonReply, Redirect};

verus! {

/// The values that the list of graphs is rendered from.
#[derive(Debug, PartialEq, Eq)]
pub struct GraphsPage {
    pub title: String,
    pub graphs: Vec<Graph>,
}

/// The values that the page of one graph is rendered from.
#[derive(Debug, PartialEq, Eq)]
pub struct GraphPage {
    pub title: String,
    pub graph_id: i32,
}

/// The values that the form for a new graph is rendered from.
#[derive(Debug, PartialEq, Eq)]
pub struct NewGraphPage {
    pub title: String,
}

/// The list page: all graphs under a fixed title. A failure passes through.
pub fn find_all(graphs: Result<Vec<Graph>, GraphError>) -> (r: Result<GraphsPage, GraphError>)
    ensures
        match graphs {
            Ok(rows) => r is Ok && r->Ok_0.title@ == "Graphs"@ && r->Ok_0.graphs == rows,
            Err(e) => r is Err && r->Err_0 == e,
        },
{
    match graphs {
        Ok(rows) => Ok(GraphsPage { title: String::from_str("Graphs"), graphs: rows }),
        Err(e) => Err(e),
    }
}

/// A graph with its nodes and edges goes out as JSON with 200. A failure
/// passes through.
pub fn find(graph: Result<ExtendedGraph, GraphError>) -> (r: Result<
    JsonReply<ExtendedGraph>,
    GraphError,
>)
    ensures
        match graph {
            Ok(x) => r is Ok && r->Ok_0.status_code == 200 && r->Ok_0.body == x,
            Err(e) => r is Err && r->Err_0 == e,
        },
{
    match graph {
        Ok(x) => Ok(JsonReply { status_code: 200, body: x }),
        Err(e) => Err(e),
    }
}

/// The page of one graph: its label is the title. A failure passes through.
pub fn show(graph_id: i32, graph: Result<Graph, GraphError>) -> (r: Result<GraphPage, GraphError>)
    ensures
        match graph {
            Ok(row) => r is Ok && r->Ok_0.title == row.graph_label && r->Ok_0.graph_id
                == graph_id,
            Err(e) => r is Err && r->Err_0 == e,
        },
{
    match graph {
        Ok(row) => Ok(GraphPage { title: row.graph_label, graph_id }),
        Err(e) => Err(e),
    }
}

/// The form for a new graph, under a fixed title.
pub fn new() -> (page: NewGraphPage)
    ensures
        page.title@ == "New Graph"@,
{
    NewGraphPage { title: String::from_str("New Graph") }
}

/// After a graph was created the client is sent to the list, with 303. A
/// failure passes through.
pub fn create(created: Result<Graph, GraphError>) -> (r: Result<Redirect, GraphError>)
    ensures
        match created {
            Ok(_) => r is Ok && is_redirect(r->Ok_0, 303, "/graphs"@),
            Err(e) => r is Err && r->Err_0 == e,
        },
{
    match created {
        Ok(_) => Ok(to_graphs(303)),
        Err(e) => Err(e),
    }
}

/// An updated graph goes out as JSON with 200. A failure passes through.
pub fn patch(patched: Result<Graph, GraphError>) -> (r: Result<JsonReply<Graph>, GraphError>)
    ensures
        match patched {
            Ok(row) => r is Ok && r->Ok_0.status_code == 200 && r->Ok_0.body == row,
            Err(e) => r is Err && r->Err_0 == e,
        },
{
    match patched {
        Ok(row) => Ok(JsonReply { status_code: 200, body: row }),
        Err(e) => Err(e),
    }
}

/// After a delete the client is sent to the list, with 303, whether a row
/// went or not. A failure passes through.
pub fn delete(deleted: Result<usize, GraphError>) -> (r: Result<Redirect, GraphError>)
    ensures
        match deleted {
            Ok(_) => r is Ok && is_redirect(r->Ok_0, 303, "/graphs"@),
            Err(e) => r is Err && r->Err_0 == e,
        },
{
    match deleted {
        Ok(_) => Ok(to_graphs(303)),
        Err(e) => Err(e),
    }
}

} // verus!
