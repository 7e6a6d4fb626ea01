//! Context extraction: the per-request value that a handler gets beside
//! the request itself.

use crate::params::Params;
use crate::parts::Parts;
use crate::reply::Error;
use vstd::prelude::*;

verus! {

/// A value that is made anew for each request from the head of the request
/// and its path parameters. Making it may fail, with the status and the
/// payload of the reply that reports the failure.
pub trait Context: Sized {
    /// Makes the context of one request.
    fn from_parts(parts: &Parts, params: &Params) -> Result<Self, Error>;
}

/// The context of a handler that needs nothing from the request.
#[derive(Debug, PartialEq, Eq)]
pub struct TokenContext;

impl Context for TokenContext {
    /// Always succeeds.
    fn from_parts(parts: &Parts, params: &Params) -> (context: Result<Self, Error>)
        ensures
            context is Ok,
    {
        Ok(TokenContext)
    }
}

} // verus!
