//! What the edge routes answer, given what the table answered.

use vstd::prelude::*;
use crate::api_error::GraphError;
use crate::edge::Edge;
use crate::response::{DeletedReply, JsonReply};

verus! {

/// An edge that was found goes out as JSON with 200. A failure passes
/// through.
pub fn find(edge: Result<Edge, GraphError>) -> (r: Result<JsonReply<Edge>, GraphError>)
    ensures
        match edge {
            Ok(row) => r is Ok && r->Ok_0.status_code == 200 && r->Ok_0.body == row,
            Err(e) => r is Err && r->Err_0 == e,
        },
{
    match edge {
        Ok(row) => Ok(JsonReply { status_code: 200, body: row }),
        Err(e) => Err(e),
    }
}

/// An edge that was created goes out as JSON with 201. A failure passes
/// through.
pub fn create(created: Result<Edge, GraphError>) -> (r: Result<JsonReply<Edge>, GraphError>)
    ensures
        match created {
            Ok(row) => r is Ok && r->Ok_0.status_code == 201 && r->Ok_0.body == row,
            Err(e) => r is Err && r->Err_0 == e,
        },
{
    match created {
        Ok(row) => Ok(JsonReply { status_code: 201, body: row }),
        Err(e) => Err(e),
    }
}

/// An updated edge goes out as JSON with 200. A failure passes through.
pub fn patch(patched: Result<Edge, GraphError>) -> (r: Result<JsonReply<Edge>, GraphError>)
    ensures
        match patched {
            Ok(row) => r is Ok && r->Ok_0.status_code == 200 && r->Ok_0.body == row,
            Err(e) => r is Err && r->Err_0 == e,
        },
{
    match patched {
        Ok(row) => Ok(JsonReply { status_code: 200, body: row }),
        Err(e) => Err(e),
    }
}

/// The count of a delete goes out with 200. A failure passes through.
pub fn delete(deleted: Result<usize, GraphError>) -> (r: Result<DeletedReply, GraphError>)
    ensures
        match deleted {
            Ok(n) => r == Ok::<DeletedReply, GraphError>(
                DeletedReply { status_code: 200, deleted: n },
            ),
            Err(e) => r is Err && r->Err_0 == e,
        },
{
    match deleted {
        Ok(n) => Ok(DeletedReply { status_code: 200, deleted: n }),
        Err(e) => Err(e),
    }
}

} // verus!
