//! Sample extractors and a sample handler: contexts that read the
//! `authorization` header, and a handler that reads a numeric path
//! parameter.

use crate::context::Context;
use crate::outside::{decimal, header_name, json_string, lowered, parse_u64, string_value};
use crate::params::Params;
use crate::parts::{first_value, Parts, AUTHORIZATION};
use crate::reply::Error;
use crate::status::StatusCode;
use vstd::prelude::*;
use vstd::utf8::is_ascii_chars;

verus! {

/// The failure with a status and a text for a payload.
pub open spec fn failure(code: StatusCode, text: Seq<char>) -> Error {
    Error { code, msg: json_string(text) }
}

/// Makes the failure with a status and a text for a payload.
fn fail(code: StatusCode, text: &str) -> (error: Error)
    ensures
        error == failure(code, text@),
{
    Error { code, msg: string_value(text) }
}

/// The context of a handler that acts for the caller: the caller's token.
#[derive(Debug, PartialEq, Eq)]
pub struct AuthContext {
    /// The value of the `authorization` header.
    pub user_token: String,
}

impl Context for AuthContext {
    /// Takes the first `authorization` header for the token. A request
    /// without one is refused with status 401 and the payload
    /// `"Unauthorized"`.
    fn from_parts(parts: &Parts, params: &Params) -> (context: Result<Self, Error>)
        ensures
            match first_value(parts@.headers, AUTHORIZATION@) {
                Some(token) => context matches Ok(c) && c.user_token@ == token,
                None => context matches Err(e) && e == failure(
                    StatusCode::Unauthorized,
                    "Unauthorized"@,
                ),
            },
    {
        match parts.header(AUTHORIZATION) {
            Some(token) => Ok(AuthContext { user_token: token.to_owned() }),
            None => Err(fail(StatusCode::Unauthorized, "Unauthorized")),
        }
    }
}

/// What reading a header by name gives: the value of the first line whose
/// name is the given name in lower case, if there is such a line; or a
/// failure with status 500 for a name that is not all ASCII.
pub open spec fn header_named(headers: Seq<(Seq<char>, Seq<char>)>, name: Seq<char>) -> Result<
    Option<Seq<char>>,
    Error,
> {
    if is_ascii_chars(name) {
        Ok(first_value(headers, lowered(name)))
    } else {
        Err(failure(StatusCode::InternalServerError, "bad header name"@))
    }
}

/// Reads a header by its name, however the name is capitalised. A name
/// that is no header name is refused with status 500 and the payload
/// `"bad header name"`.
pub fn find_header(parts: &Parts, name: &str) -> (found: Result<Option<String>, Error>)
    ensures
        match header_named(parts@.headers, name@) {
            Ok(Some(value)) => found matches Ok(Some(v)) && v@ == value,
            Ok(None) => found matches Ok(None),
            Err(error) => found matches Err(e) && e == error,
        },
{
    let name = match header_name(name) {
        Some(name) => name,
        None => {
            return Err(fail(StatusCode::InternalServerError, "bad header name"));
        },
    };
    match parts.header(name.as_str()) {
        Some(value) => Ok(Some(value.to_owned())),
        None => Ok(None),
    }
}

/// Reads the `authorization` header. A request without one is refused with
/// status 400 and the payload `"authorization required"`.
pub fn parse_header(parts: &Parts) -> (header: Result<String, Error>)
    ensures
        match first_value(parts@.headers, AUTHORIZATION@) {
            Some(value) => header matches Ok(h) && h@ == value,
            None => header matches Err(e) && e == failure(
                StatusCode::BadRequest,
                "authorization required"@,
            ),
        },
{
    proof {
        reveal_strlit("authorization");
        assert(lowered(AUTHORIZATION@) =~= AUTHORIZATION@);
    }
    match find_header(parts, AUTHORIZATION) {
        Ok(Some(value)) => Ok(value),
        Ok(None) => Err(fail(StatusCode::BadRequest, "authorization required")),
        Err(error) => Err(error),
    }
}

/// The context of a handler that acts for a known user.
#[derive(Debug, PartialEq, Eq)]
pub struct Auth {
    /// The user that the request acts for.
    pub user_id: u64,
    /// The value of the `authorization` header.
    pub token: String,
}

impl Context for Auth {
    /// Reads the `authorization` header as [`parse_header`] does and takes
    /// it for the token of user 1.
    fn from_parts(parts: &Parts, params: &Params) -> (context: Result<Self, Error>)
        ensures
            match first_value(parts@.headers, AUTHORIZATION@) {
                Some(value) => context matches Ok(c) && c.user_id == 1 && c.token@ == value,
                None => context matches Err(e) && e == failure(
                    StatusCode::BadRequest,
                    "authorization required"@,
                ),
            },
    {
        match parse_header(parts) {
            Ok(token) => Ok(Auth { user_id: 1, token }),
            Err(error) => Err(error),
        }
    }
}

/// The context of a handler that is content with a fixed token.
#[derive(Debug, PartialEq, Eq)]
pub struct CustomContext {
    /// The token.
    pub auth_token: String,
}

/// Makes a context with the token `some token` for a request that has an
/// `authorization` header.
pub fn auth_context(parts: &Parts) -> (context: Result<CustomContext, Error>)
    requires
        first_value(parts@.headers, AUTHORIZATION@) is Some,
    ensures
        context matches Ok(c) && c.auth_token@ == "some token"@,
{
    Ok(CustomContext { auth_token: "some token".to_owned() })
}

/// What the sample handler returns for given path parameters and a body
/// that is present or not.
pub open spec fn example_result(params: Map<Seq<char>, Seq<char>>, has_body: bool) -> Result<
    u64,
    Error,
> {
    if !params.contains_key("id"@) {
        Err(failure(StatusCode::InternalServerError, "param does not exist"@))
    } else {
        match decimal(params["id"@]) {
            Err(message) => Err(failure(StatusCode::BadRequest, message)),
            Ok(id) => if has_body {
                Ok(id)
            } else {
                Err(failure(StatusCode::BadRequest, "body required"@))
            },
        }
    }
}

/// A sample handler: reads the path parameter `id` as a number and asks
/// for a body. Without the parameter it fails with status 500; with a
/// parameter that is no number, with status 400 and the reason; without a
/// body, with status 400. Otherwise it returns the number and an empty
/// text.
pub fn example_route<B>(params: &Params, body: Option<&B>) -> (result: Result<(u64, String), Error>)
    ensures
        match example_result(params@, body is Some) {
            Ok(id) => result matches Ok((n, text)) && n == id && text@ == Seq::<char>::empty(),
            Err(error) => result matches Err(e) && e == error,
        },
{
    let text = match params.get("id") {
        Some(text) => text,
        None => {
            return Err(fail(StatusCode::InternalServerError, "param does not exist"));
        },
    };
    let id = match parse_u64(text.as_str()) {
        Ok(id) => id,
        Err(message) => {
            return Err(fail(StatusCode::BadRequest, message.as_str()));
        },
    };
    if body.is_none() {
        return Err(fail(StatusCode::BadRequest, "body required"));
    }
    Ok((id, String::new()))
}

} // verus!
