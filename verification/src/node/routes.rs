//! What the node routes answer, given what the table answered.

use vstd::prelude::*;
use crate::api_error::GraphError;
use crate::node::Node;
use crate::response::{DeletedReply, JsonReply};

verus! {

/// A node that was found goes out as JSON with 200. A failure passes
/// through.
pub fn find(node: Result<Node, GraphError>) -> (r: Result<JsonReply<Node>, GraphError>)
    ensures
        match node {
            Ok(row) => r is Ok && r->Ok_0.status_code == 200 && r->Ok_0.body == row,
            Err(e) => r is Err && r->Err_0 == e,
        },
{
    match node {
        Ok(row) => Ok(JsonReply { status_code: 200, body: row }),
        Err(e) => Err(e),
    }
}

/// A node that was created goes out as JSON with 201. A failure passes
/// through.
pub fn create(created: Result<Node, GraphError>) -> (r: Result<JsonReply<Node>, GraphError>)
    ensures
        match created {
            Ok(row) => r is Ok && r->Ok_0.status_code == 201 && r->Ok_0.body == row,
            Err(e) => r is Err && r->Err_0 == e,
        },
{
    match created {
        Ok(row) => Ok(JsonReply { status_code: 201, body: row }),
        Err(e) => Err(e),
    }
}

/// An updated node goes out as JSON with 200. A failure passes through.
pub fn patch(patched: Result<Node, GraphError>) -> (r: Result<JsonReply<Node>, GraphError>)
    ensures
        match patched {
            Ok(row) => r is Ok && r->Ok_0.status_code == 200 && r->Ok_0.body == row,
            Err(e) => r is Err && r->Err_0 == e,
        },
{
    match patched {
        Ok(row) => Ok(JsonReply { status_code: 200, body: row }),
        Err(e) => Err(e),
    }
}

/// The count of a delete goes out with 200. A failure passes through.
pub fn delete(deleted: Result<usize, GraphError>) -> (r: Result<DeletedReply, GraphError>)
    ensures
        match deleted {
            Ok(n) => r == Ok::<DeletedReply, GraphError>(
                DeletedReply { status_code: 200, deleted: n },
            ),
            Err(e) => r is Err && r->Err_0 == e,
        },
{
    match deleted {
        Ok(n) => Ok(DeletedReply { status_code: 200, deleted: n }),
        Err(e) => Err(e),
    }
}

} // verus!
