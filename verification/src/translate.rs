//! The error translator: the one place where a failure becomes a reply.

use vstd::prelude::*;
use vstd::string::*;
use crate::envelope::{envelope_json, ErrorResponse, RenderError};
use crate::kind::{status_of, ErrorKind, HandlerError};
use crate::response::{json_reply, Response, ResponseView};

verus! {

/// The reply to a request at `path` that failed with this kind and
/// message: the status of the kind around the envelope of message and
/// path. `None` where the envelope cannot be serialized.
pub open spec fn translated(path: Seq<char>, kind: ErrorKind, message: Seq<char>) -> Option<
    ResponseView,
> {
    match envelope_json(message, path) {
        Some(body) => Some(json_reply(status_of(kind), body)),
        None => None,
    }
}

/// The reply that carries an envelope already serialized.
pub fn reply_with_envelope(kind: ErrorKind, body: String) -> (response: Response)
    ensures
        response@ == json_reply(status_of(kind), body@),
{
    Response::json(kind.status(), body)
}

/// Turns the failure of the request at `path` into its reply. Fails only
/// where the envelope cannot be serialized.
pub fn translate(path: &str, error: &HandlerError) -> (r: Result<Response, RenderError>)
    ensures
        match r {
            Ok(response) => translated(path@, error.kind, error.message@) == Some(response@),
            Err(e) => translated(path@, error.kind, error.message@) is None && e
                == RenderError::Serialize,
        },
{
    let envelope = ErrorResponse::new(error.message.clone(), String::from_str(path));
    match envelope.to_json() {
        Ok(body) => Ok(reply_with_envelope(error.kind, body)),
        Err(e) => Err(e),
    }
}

/// A failure reported as a bad request is answered with 400, and with
/// nothing else.
pub proof fn bad_request_answers_400(path: Seq<char>, message: Seq<char>, response: ResponseView)
    requires
        translated(path, ErrorKind::BadRequest, message) == Some(response),
    ensures
        response.status == 400,
        response.status != 404,
        response.status != 500,
{
}

/// A failure reported as internal is answered with 500.
pub proof fn internal_answers_500(path: Seq<char>, message: Seq<char>, response: ResponseView)
    requires
        translated(path, ErrorKind::Internal, message) == Some(response),
    ensures
        response.status == 500,
{
}

/// A failure of any kind but bad request and internal is answered with
/// 404.
pub proof fn other_kinds_answer_404(
    path: Seq<char>,
    kind: ErrorKind,
    message: Seq<char>,
    response: ResponseView,
)
    requires
        kind != ErrorKind::BadRequest,
        kind != ErrorKind::Internal,
        translated(path, kind, message) == Some(response),
    ensures
        response.status == 404,
{
}

/// Every translated reply is JSON whose body is the envelope of the
/// message and of the path of the request that failed.
pub proof fn translated_reply_names_the_path(
    path: Seq<char>,
    kind: ErrorKind,
    message: Seq<char>,
    response: ResponseView,
)
    requires
        translated(path, kind, message) == Some(response),
    ensures
        response.content_type == crate::response::json_type(),
        envelope_json(message, path) == Some(response.body),
{
}

} // verus!
