//! A typed request router and dispatch core for HTTP services.
//!
//! The crate resolves a method and a path to a registered handler, captures
//! the path parameters, and decides, step by step, how one request travels
//! from its raw body to a reply. It does no input or output of its own: a
//! driver around it reads bodies, runs extractors and handlers, and sends
//! what the crate tells it to send.
//!
//! Requests and replies carry JSON and nothing else. A request says that it
//! has no body by a `content-length` of `0`; then the body is not parsed and
//! the handler gets the default request value.

pub mod context;
pub mod endpoint;
pub mod method;
pub mod outside;
pub mod params;
pub mod parts;
pub mod path;
pub mod pattern;
pub mod reply;
pub mod route;
pub mod router;
pub mod sample;
pub mod segment;
pub mod status;
pub mod text;

pub use context::{Context, TokenContext};
pub use endpoint::{service, Action, Endpoint, Event};
pub use method::Method;
pub use params::Params;
pub use parts::{Header, Parts};
pub use path::{RawRoute, RawSegment};
pub use reply::{error_response, not_found, response, success_response, Error, Fault, Reply};
pub use route::{paths_match, Route};
pub use router::{Dispatch, Router};
pub use segment::{DynamicSegment, StaticSegment};
pub use status::{HttpStatusCode, StatusCode};
