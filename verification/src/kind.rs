//! The closed vocabulary of failures and the status code each one becomes.

use vstd::prelude::*;

verus! {

/// HTTP status of a successful reply.
pub const STATUS_OK: u16 = 200;

/// HTTP status of a malformed request.
pub const STATUS_BAD_REQUEST: u16 = 400;

/// HTTP status of a missing resource.
pub const STATUS_NOT_FOUND: u16 = 404;

/// HTTP status of a failure inside the server.
pub const STATUS_INTERNAL: u16 = 500;

/// How a failure is classified. Every handler reports one of these; the
/// translator is the only place where a kind becomes a status code.
#[derive(Clone, Copy, Debug, PartialEq, Eq, Structural)]
pub enum ErrorKind {
    /// A missing index, resource or route.
    NotFound,
    /// Malformed input or query.
    BadRequest,
    /// An unexpected failure inside a handler or the catalog.
    Internal,
    /// Anything a handler did not classify, a routing miss included.
    Unclassified,
}

/// The status code that goes on the wire for a failure of this kind.
/// Unclassified failures answer 404: an absent resource rather than a
/// broken server.
pub open spec fn status_of(kind: ErrorKind) -> u16 {
    match kind {
        ErrorKind::NotFound => STATUS_NOT_FOUND,
        ErrorKind::BadRequest => STATUS_BAD_REQUEST,
        ErrorKind::Internal => STATUS_INTERNAL,
        ErrorKind::Unclassified => STATUS_NOT_FOUND,
    }
}

/// The kind that a status-code hint stands for. Only the three codes of
/// the vocabulary are recognised.
pub open spec fn kind_of_hint(hint: u16) -> ErrorKind {
    if hint == STATUS_NOT_FOUND {
        ErrorKind::NotFound
    } else if hint == STATUS_BAD_REQUEST {
        ErrorKind::BadRequest
    } else if hint == STATUS_INTERNAL {
        ErrorKind::Internal
    } else {
        ErrorKind::Unclassified
    }
}

impl ErrorKind {
    /// Status code for this kind.
    pub fn status(self) -> (code: u16)
        ensures
            code == status_of(self),
            self == ErrorKind::BadRequest ==> code == 400,
            self == ErrorKind::Internal ==> code == 500,
            self != ErrorKind::BadRequest && self != ErrorKind::Internal ==> code == 404,
    {
        match self {
            ErrorKind::NotFound => STATUS_NOT_FOUND,
            ErrorKind::BadRequest => STATUS_BAD_REQUEST,
            ErrorKind::Internal => STATUS_INTERNAL,
            ErrorKind::Unclassified => STATUS_NOT_FOUND,
        }
    }

    /// Classifies a status-code hint carried by a foreign error value.
    pub fn from_status_hint(hint: u16) -> (kind: ErrorKind)
        ensures
            kind == kind_of_hint(hint),
    {
        if hint == STATUS_NOT_FOUND {
            ErrorKind::NotFound
        } else if hint == STATUS_BAD_REQUEST {
            ErrorKind::BadRequest
        } else if hint == STATUS_INTERNAL {
            ErrorKind::Internal
        } else {
            ErrorKind::Unclassified
        }
    }
}

/// A failure as a handler reports it: its classification and the message
/// shown to the client.
#[derive(Clone, Debug)]
pub struct HandlerError {
    pub kind: ErrorKind,
    pub message: String,
}

impl HandlerError {
    /// A failure of the given kind with the given message.
    pub fn new(kind: ErrorKind, message: String) -> (e: HandlerError)
        ensures
            e.kind == kind,
            e.message == message,
    {
        HandlerError { kind, message }
    }
}

/// Classifying a hint and mapping the kind back never invents a status:
/// 400 and 500 come back as themselves and every other hint becomes 404.
pub proof fn hint_round_trip(hint: u16)
    ensures
        hint == 400 ==> status_of(kind_of_hint(hint)) == 400,
        hint == 500 ==> status_of(kind_of_hint(hint)) == 500,
        hint != 400 && hint != 500 ==> status_of(kind_of_hint(hint)) == 404,
{
}

} // verus!
