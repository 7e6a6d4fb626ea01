use windmill::text::str_eq;
use windmill::{
    paths_match, DynamicSegment, Method, Params, RawRoute, Route, Router, StaticSegment,
};

fn texts(raw: &RawRoute) -> Vec<String> {
    (0..raw.len()).map(|i| raw.segment(i).value().to_string()).collect()
}

fn pairs(params: &Params, names: &[&str]) -> Vec<(String, Option<String>)> {
    names.iter().map(|n| (n.to_string(), params.get(n).cloned())).collect()
}

#[test]
fn path_is_cut_at_every_slash() {
    assert_eq!(texts(&RawRoute::from_path("/users/42")), vec!["users", "42"]);
    assert_eq!(texts(&RawRoute::from_path("/a/b/c")), vec!["a", "b", "c"]);
}

#[test]
fn segments_know_their_places() {
    let raw = RawRoute::from_path("/users/42/posts");
    assert_eq!(raw.len(), 3);
    for i in 0..raw.len() {
        assert_eq!(raw.segment(i).position(), i);
    }
    assert_eq!(raw.get(2).map(|s| s.value()), Some("posts"));
    assert!(raw.get(3).is_none());
}

#[test]
fn part_before_first_slash_is_dropped() {
    assert_eq!(texts(&RawRoute::from_path("users/42")), vec!["42"]);
    assert_eq!(texts(&RawRoute::from_path("users")), Vec::<String>::new());
}

#[test]
fn empty_path_has_no_segments() {
    assert_eq!(RawRoute::from_path("").len(), 0);
}

#[test]
fn root_path_has_one_empty_segment() {
    assert_eq!(texts(&RawRoute::from_path("/")), vec![""]);
}

#[test]
fn empty_segments_are_kept() {
    assert_eq!(texts(&RawRoute::from_path("/a//b")), vec!["a", "", "b"]);
    assert_eq!(texts(&RawRoute::from_path("/a/")), vec!["a", ""]);
}

#[test]
fn segments_are_not_decoded() {
    assert_eq!(texts(&RawRoute::from_path("/a%20b/%2F")), vec!["a%20b", "%2F"]);
    assert_eq!(texts(&RawRoute::from_path("/\u{fc}ber/caf\u{e9}")), vec!["\u{fc}ber", "caf\u{e9}"]);
}

#[test]
fn compile_tells_names_in_braces_from_literals() {
    let route: Route<()> = Route::compile("/users/{id}");
    assert_eq!(route.len(), 2);
    let params = route.try_match(&RawRoute::from_path("/users/42")).expect("the route matches");
    assert_eq!(params.len(), 1);
    assert_eq!(params.get("id").map(String::as_str), Some("42"));
    assert!(route.try_match(&RawRoute::from_path("/people/42")).is_none());
}

#[test]
fn compile_takes_odd_segments_as_they_are() {
    let open: Route<()> = Route::compile("/{");
    assert!(paths_match(&open, &RawRoute::from_path("/{")));
    assert!(!paths_match(&open, &RawRoute::from_path("/x")));
    let unnamed: Route<()> = Route::compile("/{}");
    let params = unnamed.try_match(&RawRoute::from_path("/x")).expect("a capture matches anything");
    assert_eq!(params.get("").map(String::as_str), Some("x"));
    let none: Route<()> = Route::compile("");
    assert_eq!(none.len(), 0);
    assert!(paths_match(&none, &RawRoute::from_path("")));
    assert!(!paths_match(&none, &RawRoute::from_path("/")));
}

#[test]
fn builder_and_compile_agree() {
    let built: Route<()> = Route::new().with_static("users").with_dynamic("id");
    let compiled: Route<()> = Route::compile("/users/{id}");
    for path in ["/users/1", "/users", "/users/1/2", "/user/1", "/", ""] {
        let raw = RawRoute::from_path(path);
        assert_eq!(paths_match(&built, &raw), paths_match(&compiled, &raw), "{}", path);
    }
}

#[test]
fn segment_count_must_agree() {
    let route: Route<()> = Route::compile("/users/{id}");
    assert!(!paths_match(&route, &RawRoute::from_path("/users")));
    assert!(!paths_match(&route, &RawRoute::from_path("/users/42/posts")));
    assert!(!paths_match(&route, &RawRoute::from_path("")));
    assert!(paths_match(&route, &RawRoute::from_path("/users/")));
}

#[test]
fn static_route_matches_only_its_own_path() {
    let route: Route<()> = Route::compile("/a/b/c");
    assert!(paths_match(&route, &RawRoute::from_path("/a/b/c")));
    assert!(!paths_match(&route, &RawRoute::from_path("/a/c/b")));
    assert!(!paths_match(&route, &RawRoute::from_path("/a/b/C")));
    assert!(!paths_match(&route, &RawRoute::from_path("/a/b/c ")));
    assert!(!paths_match(&route, &RawRoute::from_path("/a/b")));
}

#[test]
fn dynamic_segment_matches_anything_and_keeps_it_raw() {
    let route: Route<()> = Route::compile("/files/{name}/raw");
    for value in ["x", "", "a%2Fb", "{name}", "\u{e9}"] {
        let path = format!("/files/{}/raw", value);
        let params = route.try_match(&RawRoute::from_path(&path)).expect("the route matches");
        assert_eq!(params.get("name").map(String::as_str), Some(value));
    }
}

#[test]
fn captures_bind_every_name() {
    let route: Route<()> = Route::compile("/{a}/x/{b}/{c}");
    let params = route.try_match(&RawRoute::from_path("/1/x/2/3")).expect("the route matches");
    assert_eq!(
        pairs(&params, &["a", "b", "c", "x"]),
        vec![
            ("a".to_string(), Some("1".to_string())),
            ("b".to_string(), Some("2".to_string())),
            ("c".to_string(), Some("3".to_string())),
            ("x".to_string(), None),
        ]
    );
    assert_eq!(params.len(), 3);
    assert!(params.contains_key("b"));
    assert!(!params.is_empty());
}

#[test]
fn later_capture_of_a_name_wins() {
    let route: Route<()> = Route::compile("/{id}/{id}");
    let params = route.try_match(&RawRoute::from_path("/a/b")).expect("the route matches");
    assert_eq!(params.len(), 1);
    assert_eq!(params.get("id").map(String::as_str), Some("b"));
}

#[test]
fn bind_reads_the_dynamic_positions() {
    let route: Route<()> =
        Route::new().with_dynamic("first").with_static("mid").with_dynamic("last");
    let raw = RawRoute::from_path("/1/other/3");
    assert!(!paths_match(&route, &raw));
    let params = route.bind(&raw);
    assert_eq!(params.get("first").map(String::as_str), Some("1"));
    assert_eq!(params.get("last").map(String::as_str), Some("3"));
}

#[test]
fn segments_compare_with_raw_segments() {
    let raw = RawRoute::from_path("/users/42");
    let users = StaticSegment::new("users", 0);
    assert_eq!(users.value(), "users");
    assert_eq!(users.position(), 0);
    assert!(users == *raw.segment(0));
    assert!(*raw.segment(0) == users);
    assert!(!(users == *raw.segment(1)));
    assert!(!(StaticSegment::new("42", 0) == *raw.segment(1)));
    assert!(StaticSegment::new("42", 1) == *raw.segment(1));
    let id = DynamicSegment::new("id", 1);
    assert_eq!(id.name(), "id");
    assert_eq!(id.position(), 1);
    assert!(id == *raw.segment(1));
    assert!(*raw.segment(1) == id);
    assert!(!(id == *raw.segment(0)));
}

#[test]
fn first_registered_route_wins() {
    let mut router: Router<&'static str> = Router::new();
    router.add(Method::Get, Route::compile("/users/{id}"), "by id");
    router.add(Method::Get, Route::compile("/users/me"), "me");
    router.add(Method::Get, Route::compile("/{kind}/{id}"), "any");
    let (handler, params) = router.lookup(Method::Get, "/users/me").expect("a route matches");
    assert_eq!(*handler, "by id");
    assert_eq!(params.get("id").map(String::as_str), Some("me"));
    let (handler, params) = router.lookup(Method::Get, "/posts/7").expect("a route matches");
    assert_eq!(*handler, "any");
    assert_eq!(params.get("kind").map(String::as_str), Some("posts"));
    assert_eq!(params.get("id").map(String::as_str), Some("7"));
}

#[test]
fn registration_order_decides_between_the_same_two_routes() {
    let mut one: Router<u8> = Router::new();
    one.add(Method::Get, Route::compile("/users/{id}"), 1);
    one.add(Method::Get, Route::compile("/users/me"), 2);
    let mut other: Router<u8> = Router::new();
    other.add(Method::Get, Route::compile("/users/me"), 2);
    other.add(Method::Get, Route::compile("/users/{id}"), 1);
    assert_eq!(one.lookup(Method::Get, "/users/me").map(|(h, _)| *h), Some(1));
    assert_eq!(other.lookup(Method::Get, "/users/me").map(|(h, _)| *h), Some(2));
    assert_eq!(other.lookup(Method::Get, "/users/you").map(|(h, _)| *h), Some(1));
}

#[test]
fn methods_keep_separate_routes() {
    let mut router: Router<u8> = Router::new();
    router.add(Method::Get, Route::compile("/items"), 1);
    router.add(Method::Post, Route::compile("/items"), 2);
    assert_eq!(router.lookup(Method::Get, "/items").map(|(h, _)| *h), Some(1));
    assert_eq!(router.lookup(Method::Post, "/items").map(|(h, _)| *h), Some(2));
    assert!(router.lookup(Method::Delete, "/items").is_none());
    assert!(router.lookup(Method::Put, "/items").is_none());
}

#[test]
fn empty_router_finds_nothing() {
    let router: Router<u8> = Router::new();
    assert!(router.lookup(Method::Get, "/").is_none());
    assert!(router.lookup(Method::Get, "").is_none());
}

#[test]
fn no_matching_route_finds_nothing() {
    let mut router: Router<u8> = Router::new();
    router.add(Method::Delete, Route::compile("/users/{id}/posts"), 1);
    assert!(router.lookup(Method::Delete, "/users/42").is_none());
    assert!(router.lookup(Method::Delete, "/users/42/posts/1").is_none());
    assert_eq!(router.lookup(Method::Delete, "/users/42/posts").map(|(h, _)| *h), Some(1));
}

#[test]
fn every_method_has_its_own_index() {
    let all = [
        Method::Acl, Method::BaselineControl, Method::Bind, Method::Checkin, Method::Checkout,
        Method::Connect, Method::Copy, Method::Delete, Method::Get, Method::Head, Method::Label,
        Method::Link, Method::Lock, Method::Merge, Method::MkActivity, Method::MkCalendar,
        Method::MkCol, Method::MkRedirectRef, Method::MkWorkspace, Method::Move, Method::Options,
        Method::OrderPatch, Method::Patch, Method::Post, Method::Pri, Method::PropFind,
        Method::PropPatch, Method::Put, Method::Rebind, Method::Report, Method::Search,
        Method::Trace, Method::Unbind, Method::Uncheckout, Method::Unlink, Method::Unlock,
        Method::Update, Method::UpdateRedirectRef, Method::VersionControl,
    ];
    let mut router: Router<usize> = Router::new();
    for (i, method) in all.iter().enumerate() {
        assert_eq!(method.index() as usize, i);
        router.add(*method, Route::compile("/x"), i);
    }
    for (i, method) in all.iter().enumerate() {
        assert_eq!(router.lookup(*method, "/x").map(|(h, _)| *h), Some(i));
    }
}

#[test]
fn segments_fill_the_positions_from_zero() {
    let route: Route<()> = Route::compile("/a/{b}/c/{d}/{e}");
    let statics: Vec<(&str, usize)> =
        route.static_segments().iter().map(|s| (s.value(), s.position())).collect();
    let dynamics: Vec<(&str, usize)> =
        route.dynamic_segments().iter().map(|d| (d.name(), d.position())).collect();
    assert_eq!(statics, vec![("a", 0), ("c", 2)]);
    assert_eq!(dynamics, vec![("b", 1), ("d", 3), ("e", 4)]);
    assert_eq!(route.len(), 5);
    assert!(route.registered().is_none());
    let route = route.with_handler(());
    assert!(route.registered().is_some());
    let mut places: Vec<usize> = route
        .static_segments()
        .iter()
        .map(|s| s.position())
        .chain(route.dynamic_segments().iter().map(|d| d.position()))
        .collect();
    places.sort();
    assert_eq!(places, vec![0, 1, 2, 3, 4]);
}

#[test]
fn dispatch_finds_the_handler_or_ends_the_request() {
    let mut router: Router<u8> = Router::new();
    router.add(Method::Get, Route::compile("/users/{id}"), 1);
    let parts = windmill::Parts::new(Method::Get, "/users/42");
    match router.dispatch(&parts) {
        windmill::Dispatch::Found { handler, params } => {
            assert_eq!(*handler, 1);
            assert_eq!(params.get("id").map(String::as_str), Some("42"));
        }
        windmill::Dispatch::NotFound(_) => panic!("a route matches"),
    }
    let parts = windmill::Parts::new(Method::Delete, "/users/42");
    match router.dispatch(&parts) {
        windmill::Dispatch::Found { .. } => panic!("no route matches"),
        windmill::Dispatch::NotFound(outcome) => {
            let reply = outcome.expect("a reply");
            assert_eq!(reply.status, windmill::StatusCode::NotFound);
            assert_eq!(reply.body, b"\"not found\"".to_vec());
        }
    }
}

#[test]
fn params_keep_the_last_binding_of_a_name() {
    let mut params = Params::new();
    assert!(params.is_empty());
    assert_eq!(params.len(), 0);
    assert_eq!(params.get("id"), None);
    params.insert("id", "1");
    params.insert("name", "x");
    params.insert("id", "2");
    assert_eq!(params.len(), 2);
    assert_eq!(params.get("id").map(String::as_str), Some("2"));
    assert_eq!(params.get("name").map(String::as_str), Some("x"));
    assert!(params.contains_key("name"));
    assert!(!params.contains_key("Name"));
    assert!(!params.is_empty());
}

#[test]
fn texts_are_compared_exactly() {
    assert!(str_eq("", ""));
    assert!(str_eq("users", "users"));
    assert!(!str_eq("users", "Users"));
    assert!(!str_eq("users", "user"));
    assert!(!str_eq("user", "users"));
    assert!(!str_eq("a b", "a%20b"));
    assert!(str_eq("caf\u{e9}", "caf\u{e9}"));
    assert!(!str_eq("caf\u{e9}", "cafe\u{301}"));
}
