//! The routing table: two routes, matched by method and path.

use vstd::prelude::*;
use crate::response::{Response, ResponseView, health_response, not_found_response};
use crate::text::same_text;

verus! {

/// What the router decides for a request.
#[derive(Clone, Debug, PartialEq, Eq)]
pub enum Dispatch {
    /// The request is answered at once, without touching the pool.
    Answer(Response),
    /// The request asks for an addition: its query string is decoded next.
    Add,
}

/// A routing decision as a plain value.
pub enum DispatchView {
    Answer(ResponseView),
    Add,
}

impl View for Dispatch {
    type V = DispatchView;

    open spec fn view(&self) -> DispatchView {
        match self {
            Dispatch::Answer(r) => DispatchView::Answer(r@),
            Dispatch::Add => DispatchView::Add,
        }
    }
}

/// The method is `GET`.
pub open spec fn is_get(method: Seq<char>) -> bool {
    method == "GET"@
}

/// The request is a liveness probe.
pub open spec fn is_health(method: Seq<char>, path: Seq<char>) -> bool {
    is_get(method) && path == "/health"@
}

/// The request asks for an addition.
pub open spec fn is_add(method: Seq<char>, path: Seq<char>) -> bool {
    is_get(method) && path == "/add"@
}

/// The routing table. Method and path are compared character by character:
/// nothing is folded, trimmed or decoded.
pub open spec fn dispatch(method: Seq<char>, path: Seq<char>) -> DispatchView {
    if is_health(method, path) {
        DispatchView::Answer(health_response())
    } else if is_add(method, path) {
        DispatchView::Add
    } else {
        DispatchView::Answer(not_found_response())
    }
}

/// No request matches both routes.
pub proof fn routes_are_distinct(method: Seq<char>, path: Seq<char>)
    ensures
        !(is_health(method, path) && is_add(method, path)),
{
    reveal_strlit("/health");
    reveal_strlit("/add");
    assert("/health"@.len() == 7);
    assert("/add"@.len() == 4);
}

/// Routes a request by its method and path.
///
/// A liveness probe is always answered with status 200 and no body, and a
/// request that matches neither route with status 404 and no body; neither
/// reaches the pool.
pub fn route(method: &str, path: &str) -> (r: Dispatch)
    ensures
        r@ == dispatch(method@, path@),
        is_health(method@, path@) ==> r@ == DispatchView::Answer(
            (ResponseView { status: 200, content_type: None, body: None }),
        ),
        !is_health(method@, path@) && !is_add(method@, path@) ==> r@ == DispatchView::Answer(
            (ResponseView { status: 404, content_type: None, body: None }),
        ),
        r@ is Add <==> is_add(method@, path@),
{
    proof {
        routes_are_distinct(method@, path@);
    }
    if !same_text(method, "GET") {
        return Dispatch::Answer(Response::not_found());
    }
    if same_text(path, "/health") {
        Dispatch::Answer(Response::health())
    } else if same_text(path, "/add") {
        Dispatch::Add
    } else {
        Dispatch::Answer(Response::not_found())
    }
}

} // verus!
