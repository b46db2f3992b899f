//! The middleware pipeline: what happens to every reply, in a fixed order,
//! before it is sent. The access logger looks at the reply first; the
//! compressor then rewrites its body.

use vstd::prelude::*;
use vstd::string::*;
use vstd::utf8::encode_utf8;
use crate::response::{Response, ResponseView};
use crate::routes::Method;

verus! {

/// The raw DEFLATE stream that `flate2` writes for these bytes at its
/// fastest level, or `None` where it reports an error instead.
pub uninterp spec fn deflated(body: Seq<u8>) -> Option<Seq<u8>>;

/// Runs the bytes through `flate2::write::DeflateEncoder` over an in-memory
/// buffer, at the level `flate2::Compression::fast()`. The contract claims
/// only that the outcome is a function of the bytes: the stream on success
/// is the one named by `deflated`, and a failure is what `deflated` calls
/// `None`. Nothing is claimed about the stream itself.
#[verifier::external_body]
fn deflate_fast(body: &[u8]) -> (r: Option<Vec<u8>>)
    ensures
        match r {
            Some(stream) => deflated(body@) == Some(stream@),
            None => deflated(body@) is None,
        },
{
    let level = flate2::Compression::fast();
    let mut encoder = flate2::write::DeflateEncoder::new(Vec::new(), level);
    match std::io::Write::write_all(&mut encoder, body) {
        Ok(()) => encoder.finish().ok(),
        Err(_) => None,
    }
}

/// The log target of the access logger of the service.
pub const LOG_TARGET: &'static str = "toshi::router";

/// The stages a pipeline can hold.
#[derive(Clone, Copy, Debug, PartialEq, Eq, Structural)]
pub enum Stage {
    /// Records method, path, status and size of the reply.
    AccessLog,
    /// Replaces the body by its DEFLATE stream.
    Compression,
}

/// How the body of a reply is encoded on the wire.
#[derive(Clone, Copy, Debug, PartialEq, Eq, Structural)]
pub enum ContentEncoding {
    /// The body as it was produced.
    Identity,
    /// The body as a raw DEFLATE stream.
    Deflate,
}

/// Why a reply could not be made ready for the wire.
#[derive(Clone, Copy, Debug, PartialEq, Eq, Structural)]
pub enum PipelineError {
    /// The compressor reported an error.
    Compression,
}

/// What the access logger records of one request.
#[derive(Debug)]
pub struct LogRecord {
    pub target: String,
    pub method: Method,
    pub path: String,
    pub status: u16,
    /// Size of the body in bytes, before compression.
    pub length: usize,
}

/// A log record as a value of the model.
pub struct LogView {
    pub target: Seq<char>,
    pub method: Method,
    pub path: Seq<char>,
    pub status: u16,
    pub length: usize,
}

impl View for LogRecord {
    type V = LogView;

    open spec fn view(&self) -> LogView {
        LogView {
            target: self.target@,
            method: self.method,
            path: self.path@,
            status: self.status,
            length: self.length,
        }
    }
}

/// A reply as it goes on the wire.
#[derive(Debug)]
pub struct WireResponse {
    pub status: u16,
    pub content_type: String,
    pub encoding: ContentEncoding,
    pub body: Vec<u8>,
}

/// A wire reply as a value of the model.
pub struct WireView {
    pub status: u16,
    pub content_type: Seq<char>,
    pub encoding: ContentEncoding,
    pub body: Seq<u8>,
}

impl View for WireResponse {
    type V = WireView;

    open spec fn view(&self) -> WireView {
        WireView {
            status: self.status,
            content_type: self.content_type@,
            encoding: self.encoding,
            body: self.body@,
        }
    }
}

/// What became of one reply in the pipeline: the record of the logger,
/// and the wire reply or the reason there is none.
#[derive(Debug)]
pub struct Delivery {
    pub record: LogRecord,
    pub wire: Result<WireResponse, PipelineError>,
}

/// The stages of a pipeline in the order they see a reply.
pub open spec fn stage_order(compress: bool) -> Seq<Stage> {
    if compress {
        seq![Stage::AccessLog, Stage::Compression]
    } else {
        seq![Stage::AccessLog]
    }
}

/// The record of the logger for a request and its reply. The size is that
/// of the body as the dispatcher produced it.
pub open spec fn observed(
    target: Seq<char>,
    method: Method,
    path: Seq<char>,
    response: ResponseView,
) -> LogView {
    LogView {
        target,
        method,
        path,
        status: response.status,
        length: encode_utf8(response.body).len() as usize,
    }
}

/// The wire form of a reply. The compressor changes the body and the
/// content encoding and nothing else. `None` where the compressor fails.
pub open spec fn encoded(compress: bool, response: ResponseView) -> Option<WireView> {
    if compress {
        match deflated(encode_utf8(response.body)) {
            Some(stream) => Some(
                WireView {
                    status: response.status,
                    content_type: response.content_type,
                    encoding: ContentEncoding::Deflate,
                    body: stream,
                },
            ),
            None => None,
        }
    } else {
        Some(
            WireView {
                status: response.status,
                content_type: response.content_type,
                encoding: ContentEncoding::Identity,
                body: encode_utf8(response.body),
            },
        )
    }
}

/// A pipeline as a value of the model.
pub struct PipelineView {
    pub target: Seq<char>,
    pub compress: bool,
}

/// The pipeline of a service, fixed when the service starts.
#[derive(Debug)]
pub struct Pipeline {
    target: String,
    compress: bool,
}

impl View for Pipeline {
    type V = PipelineView;

    closed spec fn view(&self) -> PipelineView {
        PipelineView { target: self.target@, compress: self.compress }
    }
}

impl Pipeline {
    /// The pipeline of the service: the access logger under the target
    /// `LOG_TARGET`, then the compressor.
    pub fn standard() -> (pipeline: Pipeline)
        ensures
            pipeline@ == (PipelineView { target: LOG_TARGET@, compress: true }),
    {
        Pipeline { target: String::from_str(LOG_TARGET), compress: true }
    }

    /// A pipeline of the access logger alone, under the given target.
    pub fn logging_only(target: &str) -> (pipeline: Pipeline)
        ensures
            pipeline@ == (PipelineView { target: target@, compress: false }),
    {
        Pipeline { target: String::from_str(target), compress: false }
    }

    /// The stages in the order they see a reply.
    pub fn stages(&self) -> (stages: Vec<Stage>)
        ensures
            stages@ == stage_order(self@.compress),
    {
        let mut stages: Vec<Stage> = Vec::new();
        stages.push(Stage::AccessLog);
        if self.compress {
            stages.push(Stage::Compression);
        }
        assert(stages@ =~= stage_order(self@.compress));
        stages
    }

    /// The logger stage: the record of a request and its reply.
    pub fn observe(&self, method: Method, path: &str, response: &Response) -> (record: LogRecord)
        ensures
            record@ == observed(self@.target, method, path@, response@),
    {
        LogRecord {
            target: self.target.clone(),
            method,
            path: String::from_str(path),
            status: response.status,
            length: response.body.as_str().len(),
        }
    }

    /// The compressor stage, where the pipeline has one: the reply in its
    /// wire form. Fails exactly where the compressor does.
    pub fn encode(&self, response: Response) -> (r: Result<WireResponse, PipelineError>)
        ensures
            match r {
                Ok(wire) => encoded(self@.compress, response@) == Some(wire@),
                Err(e) => encoded(self@.compress, response@) is None && e
                    == PipelineError::Compression,
            },
    {
        if self.compress {
            match deflate_fast(response.body.as_str().as_bytes()) {
                Some(stream) => Ok(
                    WireResponse {
                        status: response.status,
                        content_type: response.content_type,
                        encoding: ContentEncoding::Deflate,
                        body: stream,
                    },
                ),
                None => Err(PipelineError::Compression),
            }
        } else {
            let body = response.body.as_str().as_bytes_vec();
            Ok(
                WireResponse {
                    status: response.status,
                    content_type: response.content_type,
                    encoding: ContentEncoding::Identity,
                    body,
                },
            )
        }
    }

    /// Runs a reply through the pipeline. The logger records the reply as
    /// the dispatcher produced it, whatever the compressor then does.
    pub fn run(&self, method: Method, path: &str, response: Response) -> (delivery: Delivery)
        ensures
            delivery.record@ == observed(self@.target, method, path@, response@),
            match delivery.wire {
                Ok(wire) => encoded(self@.compress, response@) == Some(wire@),
                Err(e) => encoded(self@.compress, response@) is None && e
                    == PipelineError::Compression,
            },
    {
        let record = self.observe(method, path, &response);
        let wire = self.encode(response);
        Delivery { record, wire }
    }
}

/// The logger is the first stage of every pipeline, so it sees a reply
/// before the compressor does.
pub proof fn logger_comes_first(compress: bool)
    ensures
        stage_order(compress).len() >= 1,
        stage_order(compress)[0] == Stage::AccessLog,
        forall|i: int|
            0 <= i < stage_order(compress).len() && stage_order(compress)[i] == Stage::Compression
                ==> i > 0,
{
}

/// The compressor leaves status and content type alone, and what it sends
/// is the DEFLATE stream of exactly the bytes that a pipeline without it
/// sends.
pub proof fn compression_rewrites_only_the_body(
    response: ResponseView,
    plain: WireView,
    wire: WireView,
)
    requires
        encoded(false, response) == Some(plain),
        encoded(true, response) == Some(wire),
    ensures
        plain.status == response.status,
        plain.content_type == response.content_type,
        plain.encoding == ContentEncoding::Identity,
        plain.body == encode_utf8(response.body),
        wire.status == plain.status,
        wire.content_type == plain.content_type,
        wire.encoding == ContentEncoding::Deflate,
        deflated(plain.body) == Some(wire.body),
{
}

/// Replies with the same body are compressed to the same stream, whatever
/// their status: an error reply is treated like any other.
pub proof fn compression_ignores_the_status(
    first: ResponseView,
    second: ResponseView,
    first_wire: WireView,
    second_wire: WireView,
)
    requires
        first.body == second.body,
        encoded(true, first) == Some(first_wire),
        encoded(true, second) == Some(second_wire),
    ensures
        first_wire.body == second_wire.body,
        first_wire.encoding == second_wire.encoding,
{
}

} // verus!
