//! The root resource: reports the version the service was started with.

use vstd::prelude::*;
use vstd::string::*;
use crate::envelope::{render_version, version_json, RenderError};
use crate::kind::STATUS_OK;
use crate::response::{json_reply, Response, ResponseView};

verus! {

/// The reply of the root resource for a version: status 200 around the
/// version body. `None` where the version cannot be serialized.
pub open spec fn root_reply(version: Seq<char>) -> Option<ResponseView> {
    match version_json(version) {
        Some(body) => Some(json_reply(STATUS_OK, body)),
        None => None,
    }
}

/// The handler of the root path. It needs no catalog, only the version
/// string it was made with, which it never changes.
#[derive(Debug)]
pub struct RootHandler {
    version: String,
}

impl View for RootHandler {
    type V = Seq<char>;

    closed spec fn view(&self) -> Seq<char> {
        self.version@
    }
}

impl RootHandler {
    /// A root handler that reports this version.
    pub fn new(version: &str) -> (handler: RootHandler)
        ensures
            handler@ == version@,
    {
        RootHandler { version: String::from_str(version) }
    }

    /// The version this handler reports.
    pub fn version(&self) -> (version: &str)
        ensures
            version@ == self@,
    {
        self.version.as_str()
    }

    /// Answers a request for the root path. Fails only where the version
    /// cannot be serialized.
    pub fn handle(&self) -> (r: Result<Response, RenderError>)
        ensures
            match r {
                Ok(response) => root_reply(self@) == Some(response@),
                Err(e) => root_reply(self@) is None && e == RenderError::Serialize,
            },
    {
        match render_version(self.version.as_str()) {
            Ok(body) => Ok(Response::success(body)),
            Err(e) => Err(e),
        }
    }
}

/// Asking the root resource again gives the same reply: whatever two
/// requests to one handler are answered with, status, content type and
/// body are the same.
pub proof fn root_reply_is_stable(version: Seq<char>, first: ResponseView, second: ResponseView)
    requires
        root_reply(version) == Some(first),
        root_reply(version) == Some(second),
    ensures
        first == second,
        first.status == 200,
        version_json(version) == Some(first.body),
{
}

} // verus!
