//! What a route answers, as plain values: the status, where a redirect
//! leads, and the body or the values that a page is rendered from.

use vstd::prelude::*;
use vstd::string::*;

verus! {

/// An answer with a JSON body.
#[derive(Debug, PartialEq, Eq)]
pub struct JsonReply<T> {
    pub status_code: u16,
    pub body: T,
}

/// The answer to a delete: how many rows went.
#[derive(Clone, Copy, Debug, PartialEq, Eq, Structural)]
pub struct DeletedReply {
    pub status_code: u16,
    pub deleted: usize,
}

/// An answer that sends the client elsewhere.
#[derive(Debug, PartialEq, Eq)]
pub struct Redirect {
    pub status_code: u16,
    pub location: String,
}

/// What kind of text a body holds.
#[derive(Clone, Copy, Debug, PartialEq, Eq, Structural)]
pub enum ContentType {
    Html,
    PlainText,
}

/// An answer with a body of text.
#[derive(Debug, PartialEq, Eq)]
pub struct PageReply {
    pub status_code: u16,
    pub content_type: ContentType,
    pub body: String,
}

/// The values that the error page is rendered from.
#[derive(Debug, PartialEq, Eq)]
pub struct ErrorPage {
    pub error: String,
    pub status_code: u16,
}

/// `reply` has this status and leads to this location.
pub open spec fn is_redirect(reply: Redirect, status_code: u16, location: Seq<char>) -> bool {
    reply.status_code == status_code && reply.location@ == location
}

/// The redirect to the list of graphs, with the given status.
pub fn to_graphs(status_code: u16) -> (reply: Redirect)
    ensures
        is_redirect(reply, status_code, "/graphs"@),
{
    Redirect { status_code, location: String::from_str("/graphs") }
}

/// The root of the site has moved to the list of graphs, for good.
pub fn index() -> (reply: Redirect)
    ensures
        is_redirect(reply, 301, "/graphs"@),
{
    to_graphs(301)
}

/// The values of the error page for a path that no route matches.
pub fn not_found(status_code: u16) -> (page: ErrorPage)
    ensures
        page.status_code == status_code,
        page.error@ == "Page not found"@,
{
    ErrorPage { error: String::from_str("Page not found"), status_code }
}

/// The answer for an error page: the rendered page as HTML, or, where
/// rendering failed, the bare error text. The status stays either way.
pub fn get_error_response(page: &ErrorPage, rendered: Option<String>) -> (reply: PageReply)
    ensures
        reply.status_code == page.status_code,
        match rendered {
            Some(body) => reply.content_type == ContentType::Html && reply.body == body,
            None => reply.content_type == ContentType::PlainText && reply.body@ == page.error@,
        },
{
    match rendered {
        Some(body) => PageReply {
            status_code: page.status_code,
            content_type: ContentType::Html,
            body,
        },
        None => PageReply {
            status_code: page.status_code,
            content_type: ContentType::PlainText,
            body: page.error.clone(),
        },
    }
}

} // verus!
