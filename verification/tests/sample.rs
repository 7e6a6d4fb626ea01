use windmill::sample::{
    auth_context, example_route, find_header, parse_header, Auth, AuthContext,
};
use windmill::{Context, Error, Method, Params, Parts, StatusCode, TokenContext};

fn text(value: &str) -> serde_json::Value {
    serde_json::Value::String(value.to_string())
}

fn with_id(id: &str) -> Params {
    let mut params = Params::new();
    params.insert("id", id);
    params
}

#[test]
fn token_context_needs_nothing() {
    let parts = Parts::new(Method::Get, "/");
    assert_eq!(TokenContext::from_parts(&parts, &Params::new()), Ok(TokenContext));
}

#[test]
fn auth_context_takes_the_authorization_header() {
    let parts = Parts::new(Method::Get, "/").with_header("authorization", "Bearer abc");
    let context = AuthContext::from_parts(&parts, &Params::new()).expect("a context");
    assert_eq!(context.user_token, "Bearer abc");
}

#[test]
fn auth_context_refuses_a_request_without_credentials() {
    let parts = Parts::new(Method::Get, "/").with_header("accept", "*/*");
    let error = AuthContext::from_parts(&parts, &Params::new()).expect_err("no context");
    assert_eq!(error, Error { code: StatusCode::Unauthorized, msg: text("Unauthorized") });
    assert_eq!(error.code.as_u16(), 401);
}

#[test]
fn parse_header_reads_the_authorization_header() {
    let parts = Parts::new(Method::Get, "/").with_header("authorization", "token");
    assert_eq!(parse_header(&parts), Ok("token".to_string()));
    let bare = Parts::new(Method::Get, "/");
    assert_eq!(
        parse_header(&bare),
        Err(Error { code: StatusCode::BadRequest, msg: text("authorization required") })
    );
}

#[test]
fn auth_is_user_one_with_the_header_for_a_token() {
    let parts = Parts::new(Method::Get, "/").with_header("authorization", "token");
    assert_eq!(
        Auth::from_parts(&parts, &Params::new()),
        Ok(Auth { user_id: 1, token: "token".to_string() })
    );
    let bare = Parts::new(Method::Get, "/");
    assert_eq!(
        Auth::from_parts(&bare, &Params::new()),
        Err(Error { code: StatusCode::BadRequest, msg: text("authorization required") })
    );
}

#[test]
fn custom_context_has_a_fixed_token() {
    let parts = Parts::new(Method::Get, "/").with_header("authorization", "anything");
    let context = auth_context(&parts).expect("a context");
    assert_eq!(context.auth_token, "some token");
}

#[test]
fn example_route_reads_the_id() {
    assert_eq!(example_route(&with_id("42"), Some(&())), Ok((42, String::new())));
    assert_eq!(example_route(&with_id("0"), Some(&"body")), Ok((0, String::new())));
    assert_eq!(
        example_route(&with_id("18446744073709551615"), Some(&())),
        Ok((u64::MAX, String::new()))
    );
}

#[test]
fn example_route_needs_the_parameter() {
    assert_eq!(
        example_route(&Params::new(), Some(&())),
        Err(Error { code: StatusCode::InternalServerError, msg: text("param does not exist") })
    );
}

#[test]
fn example_route_refuses_what_is_no_number() {
    assert_eq!(
        example_route(&with_id("4x"), Some(&())),
        Err(Error { code: StatusCode::BadRequest, msg: text("invalid digit found in string") })
    );
    assert_eq!(
        example_route(&with_id(""), Some(&())),
        Err(Error {
            code: StatusCode::BadRequest,
            msg: text("cannot parse integer from empty string"),
        })
    );
    assert_eq!(
        example_route(&with_id("18446744073709551616"), Some(&())),
        Err(Error {
            code: StatusCode::BadRequest,
            msg: text("number too large to fit in target type"),
        })
    );
}

#[test]
fn example_route_needs_a_body() {
    assert_eq!(
        example_route::<()>(&with_id("42"), None),
        Err(Error { code: StatusCode::BadRequest, msg: text("body required") })
    );
    assert_eq!(
        example_route::<()>(&with_id("x"), None),
        Err(Error { code: StatusCode::BadRequest, msg: text("invalid digit found in string") })
    );
}

#[test]
fn find_header_takes_any_capitalisation() {
    let parts = Parts::new(Method::Get, "/")
        .with_header("x-request-id", "7")
        .with_header("authorization", "token");
    assert_eq!(find_header(&parts, "Authorization"), Ok(Some("token".to_string())));
    assert_eq!(find_header(&parts, "AUTHORIZATION"), Ok(Some("token".to_string())));
    assert_eq!(find_header(&parts, "X-Request-Id"), Ok(Some("7".to_string())));
    assert_eq!(find_header(&parts, "x-request-id"), Ok(Some("7".to_string())));
    assert_eq!(find_header(&parts, "Accept"), Ok(None));
}

#[test]
fn find_header_refuses_a_name_that_is_not_ascii() {
    let parts = Parts::new(Method::Get, "/").with_header("authorization", "token");
    assert_eq!(
        find_header(&parts, "authorizati\u{f6}n"),
        Err(Error { code: StatusCode::InternalServerError, msg: text("bad header name") })
    );
}
