//! Replies, the errors that turn into replies, and the faults that do not.

use crate::outside::{encode, json_bytes, json_string, string_value};
use crate::status::{HttpStatusCode, StatusCode};
use vstd::prelude::*;

verus! {

/// The content type of every reply that this crate makes.
pub const JSON: &'static str = "application/json";

/// A reply to one request: a status, a content type and a body.
#[derive(Debug, PartialEq, Eq)]
pub struct Reply {
    /// The status of the reply.
    pub status: StatusCode,
    /// The content type of the body.
    pub content_type: &'static str,
    /// The bytes of the body.
    pub body: Vec<u8>,
}

/// A reply as plain values.
pub struct ReplyView {
    /// The status of the reply.
    pub status: StatusCode,
    /// The content type of the body.
    pub content_type: Seq<char>,
    /// The bytes of the body.
    pub body: Seq<u8>,
}

impl View for Reply {
    type V = ReplyView;

    open spec fn view(&self) -> ReplyView {
        ReplyView { status: self.status, content_type: self.content_type@, body: self.body@ }
    }
}

/// A failure that ends a request: a status and a message payload, which
/// becomes the body of the reply.
#[derive(Debug, PartialEq)]
pub struct Error {
    /// The status of the reply that reports the failure.
    pub code: StatusCode,
    /// The payload of the reply that reports the failure.
    pub msg: serde_json::Value,
}

impl HttpStatusCode for Error {
    /// The status of the reply that reports the failure.
    fn code(&self) -> (status: StatusCode)
        ensures
            status == self.code,
    {
        self.code
    }
}

/// A failure that ends a request without a reply.
#[derive(Debug, PartialEq, Eq)]
pub enum Fault {
    /// The body of the request could not be read.
    BodyUnreadable,
    /// A message payload could not be encoded; the text says why.
    Unencodable(String),
}

/// A fault as plain values.
pub enum FaultView {
    /// The body of the request could not be read.
    BodyUnreadable,
    /// A message payload could not be encoded; the text says why.
    Unencodable(Seq<char>),
}

impl View for Fault {
    type V = FaultView;

    open spec fn view(&self) -> FaultView {
        match self {
            Fault::BodyUnreadable => FaultView::BodyUnreadable,
            Fault::Unencodable(text) => FaultView::Unencodable(text@),
        }
    }
}

/// How a request ends: with a reply, or with a fault.
pub open spec fn outcome_view(outcome: Result<Reply, Fault>) -> Result<ReplyView, FaultView> {
    match outcome {
        Ok(reply) => Ok(reply@),
        Err(fault) => Err(fault@),
    }
}

/// The reply that carries a status and a payload, or the fault of a payload
/// that cannot be encoded.
pub open spec fn reply_with(status: StatusCode, payload: serde_json::Value) -> Result<
    ReplyView,
    FaultView,
> {
    match json_bytes(payload) {
        Ok(body) => Ok(ReplyView { status, content_type: JSON@, body }),
        Err(text) => Err(FaultView::Unencodable(text)),
    }
}

/// A reply with a status, a content type and no body.
pub fn response(code: StatusCode, mime: &'static str) -> (reply: Reply)
    ensures
        reply@ == (ReplyView { status: code, content_type: mime@, body: Seq::empty() }),
{
    Reply { status: code, content_type: mime, body: Vec::new() }
}

/// The reply that reports a failure: the given status, and the payload
/// encoded as JSON for a body.
pub fn error_response(msg: &serde_json::Value, code: StatusCode) -> (outcome: Result<Reply, Fault>)
    ensures
        outcome_view(outcome) == reply_with(code, *msg),
{
    match encode(msg) {
        Ok(body) => Ok(Reply { status: code, content_type: JSON, body }),
        Err(text) => Err(Fault::Unencodable(text)),
    }
}

/// The reply that carries a result: status 200 and the encoded result for
/// a body.
pub fn success_response(body: Vec<u8>) -> (reply: Reply)
    ensures
        reply@ == (ReplyView { status: StatusCode::Okay, content_type: JSON@, body: body@ }),
{
    Reply { status: StatusCode::Okay, content_type: JSON, body }
}

/// The reply to a request that no route matches: status 404 and the JSON
/// string `"not found"` for a body.
pub fn not_found() -> (outcome: Result<Reply, Fault>)
    ensures
        outcome_view(outcome) == reply_with(StatusCode::NotFound, json_string("not found"@)),
{
    let payload = string_value("not found");
    error_response(&payload, StatusCode::NotFound)
}

} // verus!
