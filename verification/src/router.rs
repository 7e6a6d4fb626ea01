//! The route table: for each method, the routes registered under it, in
//! the order of their registration.

use crate::method::{lemma_ordinal_determines_method, Method};
use crate::outside::json_string;
use crate::params::Params;
use crate::parts::Parts;
use crate::path::RawRoute;
use crate::pattern::{admits, captures, none_matches, raw_segments, selects, Piece};
use crate::reply::{not_found, outcome_view, reply_with, Fault, Reply};
use crate::route::{paths_match, Route};
use crate::status::StatusCode;
use std::collections::HashMap;
use vstd::prelude::*;

verus! {

broadcast use vstd::std_specs::hash::group_hash_axioms;

/// A table of routes by method. A method that nothing was registered under
/// has no entry.
pub struct Router<H> {
    table: HashMap<u8, Vec<Route<H>>>,
}

/// What the table makes of one request: the handler to call and the
/// parameters to call it with, or the end of a request that no route
/// matches.
pub enum Dispatch<'r, H> {
    /// A route matches: this is its handler and what it captures.
    Found {
        /// The handler of the route that was chosen.
        handler: &'r H,
        /// What the route captures from the path.
        params: Params,
    },
    /// No route matches: this is how the request ends.
    NotFound(Result<Reply, Fault>),
}

/// The patterns of a run of routes.
spec fn patterns_of<H>(routes: Seq<Route<H>>) -> Seq<Seq<Piece>> {
    Seq::new(routes.len(), |i: int| routes[i]@)
}

/// The handlers of a run of routes.
spec fn handlers_of<H>(routes: Seq<Route<H>>) -> Seq<H> {
    Seq::new(routes.len(), |i: int| routes[i].handler()->0)
}

/// Whether every route of a table has a handler.
spec fn complete<H>(table: Map<u8, Vec<Route<H>>>) -> bool {
    forall|key: u8, i: int|
        table.contains_key(key) && 0 <= i < table[key]@.len() ==> (
        #[trigger] table[key]@[i]).handler() is Some
}

impl<H> Router<H> {
    /// Every route in the table has its handler.
    #[verifier::type_invariant]
    spec fn served(self) -> bool {
        complete(self.table@)
    }

    /// The routes registered under a method, in registration order.
    spec fn routes(&self, method: Method) -> Seq<Route<H>> {
        if self.table@.contains_key(method.ordinal()) {
            self.table@[method.ordinal()]@
        } else {
            Seq::empty()
        }
    }

    /// The patterns registered under a method, in registration order.
    pub closed spec fn patterns(&self, method: Method) -> Seq<Seq<Piece>> {
        patterns_of(self.routes(method))
    }

    /// The handlers registered under a method, each at the index of its
    /// pattern.
    pub closed spec fn handlers(&self, method: Method) -> Seq<H> {
        handlers_of(self.routes(method))
    }

    /// A table with no routes.
    pub fn new() -> (router: Self)
        ensures
            forall|method: Method| #[trigger] router.patterns(method) == Seq::<Seq<Piece>>::empty(),
            forall|method: Method| #[trigger] router.handlers(method) == Seq::<H>::empty(),
    {
        let router = Router { table: HashMap::new() };
        router
    }

    /// Registers a route and its handler under a method, after every route
    /// registered under that method before. Other methods keep their
    /// routes. Nothing is checked about the pattern: a route that an
    /// earlier one shadows is accepted all the same.
    pub fn add(&mut self, method: Method, route: Route<H>, handler: H)
        ensures
            final(self).patterns(method) == old(self).patterns(method).push(route@),
            final(self).handlers(method) == old(self).handlers(method).push(handler),
            forall|other: Method|
                other != method ==> #[trigger] final(self).patterns(other) == old(self).patterns(
                    other,
                ),
            forall|other: Method|
                other != method ==> #[trigger] final(self).handlers(other) == old(self).handlers(
                    other,
                ),
    {
        proof {
            use_type_invariant(&*self);
        }
        let key = method.index();
        let route = route.with_handler(handler);
        let mut table: HashMap<u8, Vec<Route<H>>> = HashMap::new();
        core::mem::swap(&mut self.table, &mut table);
        let mut entry = match table.remove(&key) {
            Some(routes) => routes,
            None => Vec::new(),
        };
        entry.push(route);
        table.insert(key, entry);
        self.table = table;
        proof {
            assert forall|other: Method| other != method implies #[trigger] self.patterns(other)
                == old(self).patterns(other) by {
                if other.ordinal() == method.ordinal() {
                    lemma_ordinal_determines_method(other, method);
                }
            }
            assert forall|other: Method| other != method implies #[trigger] self.handlers(other)
                == old(self).handlers(other) by {
                if other.ordinal() == method.ordinal() {
                    lemma_ordinal_determines_method(other, method);
                }
            }
        }
    }

    /// Resolves a method and a path: the path is cut into raw segments, and
    /// the routes registered under the method are tried in registration
    /// order. The first that matches gives its handler and what it captures
    /// from the path. Where the method has no routes, or none matches,
    /// there is nothing to give.
    pub fn lookup(&self, method: Method, path: &str) -> (found: Option<(&H, Params)>)
        ensures
            match found {
                Some((handler, params)) => exists|i: int|
                    {
                        &&& #[trigger] selects(self.patterns(method), raw_segments(path@), i)
                        &&& *handler == self.handlers(method)[i]
                        &&& params@ == captures(self.patterns(method)[i], raw_segments(path@))
                    },
                None => none_matches(self.patterns(method), raw_segments(path@)),
            },
    {
        proof {
            use_type_invariant(self);
        }
        let raw_route = RawRoute::from_path(path);
        let key = method.index();
        let routes = match self.table.get(&key) {
            Some(routes) => routes,
            None => {
                return None;
            },
        };
        let ghost patterns = self.patterns(method);
        let n = routes.len();
        let mut i: usize = 0;
        while i < n
            invariant
                i <= n,
                n == routes@.len(),
                routes@ == self.routes(method),
                patterns == self.patterns(method),
                raw_route@ == raw_segments(path@),
                forall|k: int| 0 <= k < routes@.len() ==> (#[trigger] routes@[k]).handler() is Some,
                forall|j: int| 0 <= j < i ==> !admits(#[trigger] patterns[j], raw_route@),
            decreases n - i,
        {
            let route = &routes[i];
            if paths_match(route, &raw_route) {
                let params = route.bind(&raw_route);
                let handler = match route.registered() {
                    Some(handler) => handler,
                    None => {
                        // Every route of the table has its handler.
                        assert(false);
                        return None;
                    },
                };
                assert(selects(patterns, raw_segments(path@), i as int));
                return Some((handler, params));
            }
            i += 1;
        }
        None
    }

    /// Decides what becomes of a request: where a route matches its method
    /// and path, the first such route handles it; where none does, the
    /// request ends with status 404 and the JSON string `"not found"`.
    pub fn dispatch(&self, parts: &Parts) -> (dispatch: Dispatch<'_, H>)
        ensures
            match dispatch {
                Dispatch::Found { handler, params } => exists|i: int|
                    {
                        &&& #[trigger] selects(
                            self.patterns(parts@.method),
                            raw_segments(parts@.path),
                            i,
                        )
                        &&& *handler == self.handlers(parts@.method)[i]
                        &&& params@ == captures(
                            self.patterns(parts@.method)[i],
                            raw_segments(parts@.path),
                        )
                    },
                Dispatch::NotFound(outcome) => {
                    &&& none_matches(self.patterns(parts@.method), raw_segments(parts@.path))
                    &&& outcome_view(outcome) == reply_with(
                        StatusCode::NotFound,
                        json_string("not found"@),
                    )
                },
            },
    {
        let path = parts.path.as_str();
        match self.lookup(parts.method, path) {
            Some((handler, params)) => {
                proof {
                    let i = choose|i: int|
                        {
                            &&& #[trigger] selects(
                                self.patterns(parts.method),
                                raw_segments(path@),
                                i,
                            )
                            &&& *handler == self.handlers(parts.method)[i]
                            &&& params@ == captures(
                                self.patterns(parts.method)[i],
                                raw_segments(path@),
                            )
                        };
                    assert(selects(self.patterns(parts@.method), raw_segments(parts@.path), i));
                }
                Dispatch::Found { handler, params }
            },
            None => Dispatch::NotFound(not_found()),
        }
    }
}

} // verus!
