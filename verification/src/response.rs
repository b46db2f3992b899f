//! Replies before they reach the wire.

use vstd::prelude::*;
use vstd::string::*;
use crate::kind::STATUS_OK;

verus! {

/// The content type of every reply.
pub open spec fn json_type() -> Seq<char> {
    "application/json"@
}

/// A reply as the dispatcher produces it: a status, a content type and a
/// JSON body, not yet logged or compressed.
#[derive(Debug)]
pub struct Response {
    pub status: u16,
    pub content_type: String,
    pub body: String,
}

/// A reply as a value of the model.
pub struct ResponseView {
    pub status: u16,
    pub content_type: Seq<char>,
    pub body: Seq<char>,
}

impl View for Response {
    type V = ResponseView;

    open spec fn view(&self) -> ResponseView {
        ResponseView { status: self.status, content_type: self.content_type@, body: self.body@ }
    }
}

/// The JSON reply with this status and body.
pub open spec fn json_reply(status: u16, body: Seq<char>) -> ResponseView {
    ResponseView { status, content_type: json_type(), body }
}

impl Response {
    /// A JSON reply with this status and body.
    pub fn json(status: u16, body: String) -> (response: Response)
        ensures
            response@ == json_reply(status, body@),
    {
        Response { status, content_type: String::from_str("application/json"), body }
    }

    /// The reply to a request that a handler served: status 200 around the
    /// handler's body.
    pub fn success(body: String) -> (response: Response)
        ensures
            response@ == json_reply(STATUS_OK, body@),
    {
        Response::json(STATUS_OK, body)
    }
}

} // verus!
