//! The responses of the service.

use vstd::prelude::*;
use vstd::string::*;

verus! {

/// Status of a request that was served.
pub const STATUS_OK: u16 = 200;

/// Status of a request that matches no route.
pub const STATUS_NOT_FOUND: u16 = 404;

/// Status of a request that matched a route and could not be served.
pub const STATUS_SERVER_ERROR: u16 = 500;

/// An HTTP response: a status, the content type where there is one, and the
/// body where there is one.
#[derive(Clone, Debug, PartialEq, Eq)]
pub struct Response {
    pub status: u16,
    pub content_type: Option<String>,
    pub body: Option<String>,
}

/// A response as a plain value.
pub struct ResponseView {
    pub status: u16,
    pub content_type: Option<Seq<char>>,
    pub body: Option<Seq<char>>,
}

impl View for Response {
    type V = ResponseView;

    open spec fn view(&self) -> ResponseView {
        ResponseView {
            status: self.status,
            content_type: match self.content_type {
                Some(t) => Some(t@),
                None => None,
            },
            body: match self.body {
                Some(b) => Some(b@),
                None => None,
            },
        }
    }
}

impl ResponseView {
    /// A body never goes without a content type.
    pub open spec fn wf(self) -> bool {
        self.body is Some ==> self.content_type is Some
    }
}

/// The content type of a body that holds JSON.
pub open spec fn json_content_type() -> Seq<char> {
    "application/json"@
}

/// The JSON object with the single member `result`, whose value is the JSON
/// text `number`.
pub open spec fn result_object(number: Seq<char>) -> Seq<char> {
    "{\"result\":"@ + number + "}"@
}

/// The response to a liveness probe.
pub open spec fn health_response() -> ResponseView {
    ResponseView { status: STATUS_OK, content_type: None, body: None }
}

/// The response to a request that matches no route.
pub open spec fn not_found_response() -> ResponseView {
    ResponseView { status: STATUS_NOT_FOUND, content_type: None, body: None }
}

/// The response that reports a sum, given as its JSON text.
pub open spec fn result_response(number: Seq<char>) -> ResponseView {
    ResponseView {
        status: STATUS_OK,
        content_type: Some(json_content_type()),
        body: Some(result_object(number)),
    }
}

/// The response to a request that could not be served.
pub open spec fn failure_response() -> ResponseView {
    ResponseView { status: STATUS_SERVER_ERROR, content_type: None, body: None }
}

impl Response {
    /// The response to a liveness probe: served, with nothing to say.
    pub fn health() -> (r: Response)
        ensures
            r@ == health_response(),
            r@.wf(),
    {
        Response { status: STATUS_OK, content_type: None, body: None }
    }

    /// The response to a request that matches no route.
    pub fn not_found() -> (r: Response)
        ensures
            r@ == not_found_response(),
            r@.wf(),
    {
        Response { status: STATUS_NOT_FOUND, content_type: None, body: None }
    }

    /// The response that reports a sum. `number` is the sum as JSON text; the
    /// body is the object that holds it under `result`.
    pub fn result(number: &str) -> (r: Response)
        ensures
            r@ == result_response(number@),
            r@.wf(),
    {
        let mut body = String::from_str("{\"result\":");
        body.append(number);
        body.append("}");
        Response {
            status: STATUS_OK,
            content_type: Some(String::from_str("application/json")),
            body: Some(body),
        }
    }

    /// The response to a request that could not be served, whatever the
    /// reason.
    pub fn failure() -> (r: Response)
        ensures
            r@ == failure_response(),
            r@.wf(),
    {
        Response { status: STATUS_SERVER_ERROR, content_type: None, body: None }
    }
}

} // verus!
