//! The dispatcher: from a request to exactly one reply.
//!
//! A request is served in steps. `begin` matches it against the route
//! bindings and either answers at once or names the resource to invoke.
//! The caller runs that resource and hands its outcome to `finish`, and
//! every reply then goes through `deliver`.

use vstd::prelude::*;
use vstd::string::*;
use vstd::utf8::encode_utf8;
use crate::envelope::{envelope_json, RenderError};
use crate::kind::{ErrorKind, HandlerError, STATUS_OK};
use crate::pipeline::{encoded, observed, Delivery, Pipeline, PipelineError, PipelineView};
use crate::response::{json_reply, Response, ResponseView};
use crate::root::{root_reply, RootHandler};
use crate::routes::{binding_accepts, resolve, resolve_is_sound, BindingView, Method, Resource, RouteTable};
use crate::translate::{translate, translated};

verus! {

/// What the dispatcher does with a request it has matched.
#[derive(Debug)]
pub enum Step {
    /// The request belongs to this resource, which has yet to run.
    Invoke(Resource),
    /// The request is answered with this reply.
    Respond(Response),
}

/// A step as a value of the model.
pub enum StepView {
    Invoke(Resource),
    Respond(ResponseView),
}

impl View for Step {
    type V = StepView;

    open spec fn view(&self) -> StepView {
        match self {
            Step::Invoke(resource) => StepView::Invoke(*resource),
            Step::Respond(response) => StepView::Respond(response@),
        }
    }
}

/// How a resource ended a request.
#[derive(Debug)]
pub enum Outcome {
    /// The JSON body of the reply.
    Success(String),
    /// The failure to translate.
    Failure(HandlerError),
}

/// An outcome as a value of the model.
pub enum OutcomeView {
    Success(Seq<char>),
    Failure(ErrorKind, Seq<char>),
}

impl View for Outcome {
    type V = OutcomeView;

    open spec fn view(&self) -> OutcomeView {
        match self {
            Outcome::Success(body) => OutcomeView::Success(body@),
            Outcome::Failure(error) => OutcomeView::Failure(error.kind, error.message@),
        }
    }
}

/// The message of the failure that a request without a binding ends in.
pub open spec fn miss_message() -> Seq<char> {
    "Not Found"@
}

/// The first step for a request. A request that no binding accepts is
/// answered as not found; a request for the root resource is answered with
/// the version; every other request is handed to its resource. `None`
/// where the reply cannot be serialized.
pub open spec fn begun(
    table: Seq<BindingView>,
    version: Seq<char>,
    method: Method,
    path: Seq<char>,
) -> Option<StepView> {
    match resolve(table, method, encode_utf8(path)) {
        None => match translated(path, ErrorKind::NotFound, miss_message()) {
            Some(response) => Some(StepView::Respond(response)),
            None => None,
        },
        Some(Resource::Root) => match root_reply(version) {
            Some(response) => Some(StepView::Respond(response)),
            None => None,
        },
        Some(resource) => Some(StepView::Invoke(resource)),
    }
}

/// The reply to a request at `path` whose resource ended in `outcome`:
/// status 200 around the body of a success, the translation of a failure.
/// `None` where the reply cannot be serialized.
pub open spec fn finished(path: Seq<char>, outcome: OutcomeView) -> Option<ResponseView> {
    match outcome {
        OutcomeView::Success(body) => Some(json_reply(STATUS_OK, body)),
        OutcomeView::Failure(kind, message) => translated(path, kind, message),
    }
}

/// The dispatcher of a service: its route bindings, its root resource and
/// its pipeline, none of which changes once the dispatcher is made.
#[derive(Debug)]
pub struct Dispatcher {
    routes: RouteTable,
    root: RootHandler,
    pipeline: Pipeline,
}

impl Dispatcher {
    /// The route bindings.
    pub closed spec fn table(&self) -> Seq<BindingView> {
        self.routes@
    }

    /// The version that the root resource reports.
    pub closed spec fn version(&self) -> Seq<char> {
        self.root@
    }

    /// The pipeline.
    pub closed spec fn stages(&self) -> PipelineView {
        self.pipeline@
    }

    /// A dispatcher over these bindings, this root resource and this
    /// pipeline.
    pub fn new(routes: RouteTable, root: RootHandler, pipeline: Pipeline) -> (dispatcher:
        Dispatcher)
        ensures
            dispatcher.table() == routes@,
            dispatcher.version() == root@,
            dispatcher.stages() == pipeline@,
    {
        Dispatcher { routes, root, pipeline }
    }

    /// Matches a request and takes the first step. Fails only where the
    /// reply cannot be serialized.
    pub fn begin(&self, method: Method, path: &str) -> (r: Result<Step, RenderError>)
        ensures
            match r {
                Ok(step) => begun(self.table(), self.version(), method, path@) == Some(step@),
                Err(e) => begun(self.table(), self.version(), method, path@) is None && e
                    == RenderError::Serialize,
            },
    {
        match self.routes.lookup(method, path) {
            None => {
                let miss = HandlerError::new(ErrorKind::NotFound, String::from_str("Not Found"));
                match translate(path, &miss) {
                    Ok(response) => Ok(Step::Respond(response)),
                    Err(e) => Err(e),
                }
            },
            Some(Resource::Root) => match self.root.handle() {
                Ok(response) => Ok(Step::Respond(response)),
                Err(e) => Err(e),
            },
            Some(resource) => Ok(Step::Invoke(resource)),
        }
    }

    /// Turns the outcome of a resource into the reply. Fails only where
    /// the reply cannot be serialized.
    pub fn finish(&self, path: &str, outcome: Outcome) -> (r: Result<Response, RenderError>)
        ensures
            match r {
                Ok(response) => finished(path@, outcome@) == Some(response@),
                Err(e) => finished(path@, outcome@) is None && e == RenderError::Serialize,
            },
    {
        match outcome {
            Outcome::Success(body) => Ok(Response::success(body)),
            Outcome::Failure(error) => translate(path, &error),
        }
    }

    /// Runs a reply through the pipeline: the logger first, then the
    /// compressor.
    pub fn deliver(&self, method: Method, path: &str, response: Response) -> (delivery: Delivery)
        ensures
            delivery.record@ == observed(self.stages().target, method, path@, response@),
            match delivery.wire {
                Ok(wire) => encoded(self.stages().compress, response@) == Some(wire@),
                Err(e) => encoded(self.stages().compress, response@) is None && e
                    == PipelineError::Compression,
            },
    {
        self.pipeline.run(method, path, response)
    }
}

/// A request that no binding accepts is answered at once, with status 404
/// and the envelope that names the path of the request.
pub proof fn unmatched_request_answers_404(
    table: Seq<BindingView>,
    version: Seq<char>,
    method: Method,
    path: Seq<char>,
    step: StepView,
)
    requires
        forall|i: int|
            0 <= i < table.len() ==> !binding_accepts(
                #[trigger] table[i],
                method,
                encode_utf8(path),
            ),
        begun(table, version, method, path) == Some(step),
    ensures
        step is Respond,
        step->Respond_0.status == 404,
        envelope_json(miss_message(), path) == Some(step->Respond_0.body),
{
    resolve_is_sound(table, method, encode_utf8(path));
}

/// A failure is answered with the status of its kind, wherever in the
/// table the request was matched: 400 for a bad request, 500 for an
/// internal failure, 404 for everything else, and always with the
/// envelope that names the path.
pub proof fn failure_answers_by_kind(
    path: Seq<char>,
    kind: ErrorKind,
    message: Seq<char>,
    response: ResponseView,
)
    requires
        finished(path, OutcomeView::Failure(kind, message)) == Some(response),
    ensures
        kind == ErrorKind::BadRequest ==> response.status == 400,
        kind == ErrorKind::Internal ==> response.status == 500,
        kind != ErrorKind::BadRequest && kind != ErrorKind::Internal ==> response.status == 404,
        envelope_json(message, path) == Some(response.body),
{
}

} // verus!
