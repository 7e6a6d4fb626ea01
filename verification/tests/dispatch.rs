use std::cell::RefCell;
use std::collections::HashMap;
use std::rc::Rc;

use serde::de::DeserializeOwned;
use serde::Serialize;
use windmill::endpoint::{Action, Endpoint, Event};
use windmill::sample::AuthContext;
use windmill::{
    Context, Dispatch, Error, Fault, Method, Params, Parts, Reply, Route, Router, StatusCode,
    TokenContext,
};

type Handler = Box<dyn Fn(&Parts, Params, &[u8]) -> Result<Reply, Fault>>;

/// Drives the pipeline of one request to its end, doing each step at once.
fn endpoint<C, Q, R>(handler: impl Fn(C, Q, &Params) -> Result<R, Error> + 'static) -> Handler
where
    C: Context,
    Q: DeserializeOwned + Default,
    R: Serialize,
{
    Box::new(move |parts: &Parts, params: Params, body: &[u8]| {
        let mut step = Endpoint::<C>::new(parts).step::<Q, R>(Event::BodyRead(body.to_vec()));
        loop {
            let (endpoint, action) = step.expect("every event comes in its turn");
            let event = match action {
                Action::ExtractContext => match C::from_parts(parts, &params) {
                    Ok(context) => Event::ContextReady(context),
                    Err(error) => Event::ContextFailed(error),
                },
                Action::ParseRequest { body } => match serde_json::from_slice::<Q>(&body) {
                    Ok(request) => Event::RequestParsed(request),
                    Err(error) => Event::RequestRejected(error.to_string()),
                },
                Action::CallHandler { context, request } => {
                    match handler(context, request.unwrap_or_default(), &params) {
                        Ok(result) => Event::HandlerReturned(result),
                        Err(error) => Event::HandlerFailed(error),
                    }
                }
                Action::EncodeResult { result } => match serde_json::to_vec(&result) {
                    Ok(bytes) => Event::ResultEncoded(bytes),
                    Err(error) => Event::ResultUnencodable(error.to_string()),
                },
                Action::Finish(outcome) => return outcome,
            };
            step = endpoint.step(event);
        }
    })
}

fn dispatch(router: &Router<Handler>, parts: &Parts, body: &[u8]) -> Reply {
    let outcome = match router.dispatch(parts) {
        Dispatch::Found { handler, params } => handler(parts, params, body),
        Dispatch::NotFound(outcome) => outcome,
    };
    outcome.expect("no fault")
}

fn request(method: Method, path: &str, content_length: Option<&str>) -> Parts {
    let parts = Parts::new(method, path);
    match content_length {
        Some(length) => parts.with_header("content-length", length),
        None => parts,
    }
}

#[test]
fn test() {
    type ExampleRequest = HashMap<String, String>;

    fn example_route(
        _cx: TokenContext,
        _req: ExampleRequest,
        _params: &Params,
    ) -> Result<(), Error> {
        Ok(())
    }

    fn another_route(_cx: TokenContext, _req: (), _params: &Params) -> Result<(), Error> {
        Err(Error { code: StatusCode::Unauthorized, msg: serde_json::Value::Null })
    }

    let mut router: Router<Handler> = Router::new();
    router.add(
        Method::Get,
        Route::new().with_static("images").with_dynamic("image_id"),
        endpoint(example_route),
    );
    router.add(Method::Get, Route::new().with_static("foo"), endpoint(another_route));

    let found = dispatch(&router, &request(Method::Get, "/images/7", Some("0")), b"");
    assert_eq!(found.status, StatusCode::Okay);
    assert_eq!(found.body, b"null".to_vec());
    let refused = dispatch(&router, &request(Method::Get, "/foo", Some("0")), b"");
    assert_eq!(refused.status, StatusCode::Unauthorized);
}

#[test]
fn get_user_by_id_without_body() {
    let seen = Rc::new(RefCell::new(Vec::new()));
    let log = seen.clone();
    let mut router: Router<Handler> = Router::new();
    router.add(
        Method::Get,
        Route::compile("/users/{id}"),
        endpoint(move |_cx: TokenContext, req: HashMap<String, String>, params: &Params| {
            log.borrow_mut().push((params.get("id").cloned(), params.len(), req));
            Ok::<_, Error>(vec!["declared", "body"])
        }),
    );
    let reply = dispatch(&router, &request(Method::Get, "/users/42", Some("0")), b"");
    assert_eq!(reply.status, StatusCode::Okay);
    assert_eq!(reply.status.as_u16(), 200);
    assert_eq!(reply.content_type, "application/json");
    assert_eq!(reply.body, b"[\"declared\",\"body\"]".to_vec());
    assert_eq!(*seen.borrow(), vec![(Some("42".to_string()), 1, HashMap::new())]);
}

#[test]
fn delete_without_route_is_not_found() {
    let mut router: Router<Handler> = Router::new();
    router.add(
        Method::Get,
        Route::compile("/users/{id}"),
        endpoint(|_cx: TokenContext, _req: (), _params: &Params| Ok::<_, Error>(1)),
    );
    let reply = dispatch(&router, &request(Method::Delete, "/users/42", None), b"");
    assert_eq!(reply.status, StatusCode::NotFound);
    assert_eq!(reply.status.as_u16(), 404);
    assert_eq!(reply.body, b"\"not found\"".to_vec());
    let reply = dispatch(&router, &request(Method::Get, "/users", None), b"");
    assert_eq!(reply.status, StatusCode::NotFound);
}

#[test]
fn post_with_content_length_zero_gets_default_request() {
    let seen = Rc::new(RefCell::new(Vec::new()));
    let log = seen.clone();
    let mut router: Router<Handler> = Router::new();
    router.add(
        Method::Post,
        Route::compile("/items"),
        endpoint(move |_cx: TokenContext, req: HashMap<String, String>, _params: &Params| {
            log.borrow_mut().push(req.clone());
            Ok::<_, Error>(req.len())
        }),
    );
    let reply =
        dispatch(&router, &request(Method::Post, "/items", Some("0")), b"{\"foo\": \"bar\"}");
    assert_eq!(reply.status, StatusCode::Okay);
    assert_eq!(reply.body, b"0".to_vec());
    assert_eq!(*seen.borrow(), vec![HashMap::new()]);
}

#[test]
fn post_with_body_gets_parsed_request() {
    let mut router: Router<Handler> = Router::new();
    router.add(
        Method::Post,
        Route::compile("/items"),
        endpoint(|_cx: TokenContext, req: HashMap<String, String>, _params: &Params| {
            Ok::<_, Error>(req.get("foo").cloned())
        }),
    );
    let body = b"{\"foo\": \"bar\"}";
    let reply = dispatch(&router, &request(Method::Post, "/items", Some("14")), body);
    assert_eq!(reply.status, StatusCode::Okay);
    assert_eq!(reply.body, b"\"bar\"".to_vec());
}

#[test]
fn post_with_wrongly_typed_field_is_bad_request() {
    let calls = Rc::new(RefCell::new(0));
    let count = calls.clone();
    let mut router: Router<Handler> = Router::new();
    router.add(
        Method::Post,
        Route::compile("/items"),
        endpoint(move |_cx: TokenContext, _req: HashMap<String, String>, _params: &Params| {
            *count.borrow_mut() += 1;
            Ok::<_, Error>(())
        }),
    );
    let reply = dispatch(&router, &request(Method::Post, "/items", Some("10")), b"{\"foo\": 1}");
    assert_eq!(reply.status, StatusCode::BadRequest);
    assert_eq!(reply.status.as_u16(), 400);
    assert_eq!(
        reply.body,
        b"\"invalid type: integer `1`, expected a string at line 1 column 9\"".to_vec()
    );
    assert_eq!(*calls.borrow(), 0);
}

#[test]
fn request_without_authorization_is_unauthorized() {
    let calls = Rc::new(RefCell::new(0));
    let count = calls.clone();
    let mut router: Router<Handler> = Router::new();
    router.add(
        Method::Get,
        Route::compile("/private"),
        endpoint(move |cx: AuthContext, _req: (), _params: &Params| {
            *count.borrow_mut() += 1;
            Ok::<_, Error>(cx.user_token)
        }),
    );
    let reply = dispatch(&router, &request(Method::Get, "/private", Some("0")), b"");
    assert_eq!(reply.status, StatusCode::Unauthorized);
    assert_eq!(reply.status.as_u16(), 401);
    assert_eq!(reply.body, b"\"Unauthorized\"".to_vec());
    assert_eq!(*calls.borrow(), 0);

    let allowed = request(Method::Get, "/private", Some("0")).with_header("authorization", "t0k");
    let reply = dispatch(&router, &allowed, b"");
    assert_eq!(reply.status, StatusCode::Okay);
    assert_eq!(reply.body, b"\"t0k\"".to_vec());
    assert_eq!(*calls.borrow(), 1);
}

#[test]
fn context_failure_comes_before_body_parsing() {
    let mut router: Router<Handler> = Router::new();
    router.add(
        Method::Post,
        Route::compile("/private"),
        endpoint(|_cx: AuthContext, _req: HashMap<String, String>, _params: &Params| {
            Ok::<_, Error>(())
        }),
    );
    let reply = dispatch(&router, &request(Method::Post, "/private", Some("7")), b"not json");
    assert_eq!(reply.status, StatusCode::Unauthorized);
    assert_eq!(reply.body, b"\"Unauthorized\"".to_vec());
}

#[test]
fn result_that_cannot_be_encoded_is_internal_error() {
    let mut router: Router<Handler> = Router::new();
    router.add(
        Method::Get,
        Route::compile("/odd"),
        endpoint(|_cx: TokenContext, _req: (), _params: &Params| {
            let mut odd = HashMap::new();
            odd.insert(vec![1u8], 1u8);
            Ok::<_, Error>(odd)
        }),
    );
    let reply = dispatch(&router, &request(Method::Get, "/odd", Some("0")), b"");
    assert_eq!(reply.status, StatusCode::InternalServerError);
    assert_eq!(reply.body, b"\"key must be a string\"".to_vec());
}
