//! Request-dispatch core of the Toshi search service.
//!
//! The crate decides, for every inbound request, which resource handles it,
//! which access to the shared catalog that resource asks for, how a handler
//! failure becomes a JSON error envelope with an HTTP status, and what the
//! access logger and the response compressor do to the reply. Sockets, the
//! async runtime, the lock and the handlers themselves live outside.

pub mod access;
pub mod dispatch;
pub mod envelope;
pub mod kind;
pub mod path;
pub mod pipeline;
pub mod response;
pub mod root;
pub mod routes;
pub mod template;
pub mod translate;
