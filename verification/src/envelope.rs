//! JSON bodies: the error envelope sent for every failed request, and the
//! string quoting both it and the root reply are framed from.

use vstd::prelude::*;
use vstd::string::*;

verus! {

/// The error type of `serde_json`, carried through and never inspected.
#[verifier::external_type_specification]
#[verifier::external_body]
pub struct ExJsonError(serde_json::Error);

/// The JSON string literal, quotes and escapes included, that `serde_json`
/// writes for a text, or `None` where it reports an error instead.
pub uninterp spec fn json_string(text: Seq<char>) -> Option<Seq<char>>;

/// Calls `serde_json::to_string` on a string slice. The contract claims only
/// that the outcome is a function of the text: the literal on success is the
/// one named by `json_string`, and a failure is what `json_string` calls
/// `None`. Nothing is claimed about how the literal is escaped.
#[verifier::external_body]
fn quote(text: &str) -> (r: Result<String, serde_json::Error>)
    ensures
        match r {
            Ok(literal) => json_string(text@) == Some(literal@),
            Err(_) => json_string(text@) is None,
        },
{
    serde_json::to_string(text)
}

/// Why a body could not be produced.
#[derive(Clone, Copy, Debug, PartialEq, Eq, Structural)]
pub enum RenderError {
    /// The JSON serializer refused a text.
    Serialize,
}

/// The text of an envelope whose two members are already JSON literals:
/// one object, `error` first, `uri` second, no whitespace.
pub open spec fn envelope_text(error_literal: Seq<char>, uri_literal: Seq<char>) -> Seq<char> {
    "{\"error\":"@ + error_literal + ",\"uri\":"@ + uri_literal + "}"@
}

/// The JSON body of an envelope with the given message and request path,
/// or `None` where one of the two cannot be quoted.
pub open spec fn envelope_json(error: Seq<char>, uri: Seq<char>) -> Option<Seq<char>> {
    match (json_string(error), json_string(uri)) {
        (Some(error_literal), Some(uri_literal)) => Some(envelope_text(error_literal, uri_literal)),
        _ => None,
    }
}

/// Frames two JSON literals as an envelope.
pub fn frame_envelope(error_literal: &str, uri_literal: &str) -> (body: String)
    ensures
        body@ == envelope_text(error_literal@, uri_literal@),
{
    let mut body = String::from_str("{\"error\":");
    body.append(error_literal);
    body.append(",\"uri\":");
    body.append(uri_literal);
    body.append("}");
    body
}

/// What a client receives when a request fails: a message for a human and
/// the path of the request that failed.
#[derive(Clone, Debug)]
pub struct ErrorResponse {
    pub error: String,
    pub uri: String,
}

impl ErrorResponse {
    /// An envelope for a failure with this message at this request path.
    pub fn new(error: String, uri: String) -> (envelope: ErrorResponse)
        ensures
            envelope.error == error,
            envelope.uri == uri,
    {
        ErrorResponse { error, uri }
    }

    /// The envelope as JSON text. Fails exactly when the serializer cannot
    /// quote one of the two members.
    pub fn to_json(&self) -> (r: Result<String, RenderError>)
        ensures
            match r {
                Ok(body) => envelope_json(self.error@, self.uri@) == Some(body@),
                Err(e) => envelope_json(self.error@, self.uri@) is None && e == RenderError::Serialize,
            },
    {
        match quote(self.error.as_str()) {
            Ok(error_literal) => match quote(self.uri.as_str()) {
                Ok(uri_literal) => Ok(frame_envelope(error_literal.as_str(), uri_literal.as_str())),
                Err(_) => Err(RenderError::Serialize),
            },
            Err(_) => Err(RenderError::Serialize),
        }
    }
}

/// The text of the root reply whose member is already a JSON literal.
pub open spec fn version_text(version_literal: Seq<char>) -> Seq<char> {
    "{\"version\":"@ + version_literal + "}"@
}

/// The JSON body that reports a version, or `None` where the version
/// cannot be quoted.
pub open spec fn version_json(version: Seq<char>) -> Option<Seq<char>> {
    match json_string(version) {
        Some(version_literal) => Some(version_text(version_literal)),
        None => None,
    }
}

/// Frames a JSON literal as the root reply.
pub fn frame_version(version_literal: &str) -> (body: String)
    ensures
        body@ == version_text(version_literal@),
{
    let mut body = String::from_str("{\"version\":");
    body.append(version_literal);
    body.append("}");
    body
}

/// The root reply for a version as JSON text. Fails exactly when the
/// serializer cannot quote the version.
pub fn render_version(version: &str) -> (r: Result<String, RenderError>)
    ensures
        match r {
            Ok(body) => version_json(version@) == Some(body@),
            Err(e) => version_json(version@) is None && e == RenderError::Serialize,
        },
{
    match quote(version) {
        Ok(version_literal) => Ok(frame_version(version_literal.as_str())),
        Err(_) => Err(RenderError::Serialize),
    }
}

} // verus!
