//! Compiled routes: a pattern of literal and capturing segments, and the
//! handler registered for it.

use crate::params::Params;
use crate::path::RawRoute;
use crate::pattern::{
    accepts, admits, captures, lemma_captures_skip_literals, lemma_captures_step, pattern_of,
    piece_of, raw_segments, Piece,
};
use crate::segment::{DynamicSegment, StaticSegment};
use vstd::prelude::*;

verus! {

/// A route: its static and dynamic segments, which between them fill the
/// positions from zero up without a gap, and the handler registered for it
/// once it is in a table.
pub struct Route<H> {
    static_segments: Vec<StaticSegment>,
    dynamic_segments: Vec<DynamicSegment>,
    handler: Option<H>,
    pattern: Ghost<Seq<Piece>>,
}

/// Whether two segment lists say exactly what a pattern says: each segment
/// stands for the piece at its position, each piece has its segment, and
/// both lists are in the order of their positions.
spec fn agree(
    statics: Seq<StaticSegment>,
    dynamics: Seq<DynamicSegment>,
    pattern: Seq<Piece>,
) -> bool {
    &&& pattern.len() == statics.len() + dynamics.len()
    &&& pattern.len() <= usize::MAX
    &&& forall|i: int|
        0 <= i < statics.len() ==> (#[trigger] statics[i]).place() < pattern.len()
            && pattern[statics[i].place() as int] == Piece::Literal(statics[i].text())
    &&& forall|j: int|
        0 <= j < dynamics.len() ==> (#[trigger] dynamics[j]).place() < pattern.len()
            && pattern[dynamics[j].place() as int] == Piece::Capture(dynamics[j].label())
    &&& forall|i: int, k: int|
        0 <= i < k < statics.len() ==> (#[trigger] statics[i]).place() < (
        #[trigger] statics[k]).place()
    &&& forall|j: int, k: int|
        0 <= j < k < dynamics.len() ==> (#[trigger] dynamics[j]).place() < (
        #[trigger] dynamics[k]).place()
    &&& forall|p: int|
        0 <= p < pattern.len() && (#[trigger] pattern[p]) is Literal ==> exists|i: int|
            0 <= i < statics.len() && (#[trigger] statics[i]).place() == p
    &&& forall|p: int|
        0 <= p < pattern.len() && (#[trigger] pattern[p]) is Capture ==> exists|j: int|
            0 <= j < dynamics.len() && (#[trigger] dynamics[j]).place() == p
}

/// A static segment appended at the next free position keeps the lists
/// and the pattern in agreement.
proof fn lemma_agree_push_static(
    statics: Seq<StaticSegment>,
    dynamics: Seq<DynamicSegment>,
    pattern: Seq<Piece>,
    segment: StaticSegment,
)
    requires
        agree(statics, dynamics, pattern),
        segment.place() == pattern.len(),
        pattern.len() < usize::MAX,
    ensures
        agree(statics.push(segment), dynamics, pattern.push(Piece::Literal(segment.text()))),
{
    let grown = statics.push(segment);
    let longer = pattern.push(Piece::Literal(segment.text()));
    assert forall|p: int| 0 <= p < longer.len() && (#[trigger] longer[p]) is Literal implies exists|
        i: int,
    | 0 <= i < grown.len() && (#[trigger] grown[i]).place() == p by {
        if p < pattern.len() {
            let i = choose|i: int| 0 <= i < statics.len() && (#[trigger] statics[i]).place() == p;
            assert(grown[i].place() == p);
        } else {
            assert(grown[statics.len() as int].place() == p);
        }
    }
}

/// A dynamic segment appended at the next free position keeps the lists
/// and the pattern in agreement.
proof fn lemma_agree_push_dynamic(
    statics: Seq<StaticSegment>,
    dynamics: Seq<DynamicSegment>,
    pattern: Seq<Piece>,
    segment: DynamicSegment,
)
    requires
        agree(statics, dynamics, pattern),
        segment.place() == pattern.len(),
        pattern.len() < usize::MAX,
    ensures
        agree(statics, dynamics.push(segment), pattern.push(Piece::Capture(segment.label()))),
{
    let grown = dynamics.push(segment);
    let longer = pattern.push(Piece::Capture(segment.label()));
    assert forall|p: int| 0 <= p < longer.len() && (#[trigger] longer[p]) is Capture implies exists|
        j: int,
    | 0 <= j < grown.len() && (#[trigger] grown[j]).place() == p by {
        if p < pattern.len() {
            let j = choose|j: int|
                0 <= j < dynamics.len() && (#[trigger] dynamics[j]).place() == p;
            assert(grown[j].place() == p);
        } else {
            assert(grown[dynamics.len() as int].place() == p);
        }
    }
}

impl<H> View for Route<H> {
    type V = Seq<Piece>;

    closed spec fn view(&self) -> Seq<Piece> {
        self.pattern@
    }
}

impl<H> Route<H> {
    /// The two segment lists say exactly what the pattern says.
    #[verifier::type_invariant]
    spec fn coherent(self) -> bool {
        agree(self.static_segments@, self.dynamic_segments@, self.pattern@)
    }

    /// The handler registered for this route, if it has one yet.
    pub closed spec fn handler(&self) -> Option<H> {
        self.handler
    }

    /// A route with no segments and no handler. It matches the path that
    /// has no segments.
    pub fn new() -> (route: Self)
        ensures
            route@ == Seq::<Piece>::empty(),
            route.handler() is None,
    {
        Route {
            static_segments: Vec::new(),
            dynamic_segments: Vec::new(),
            handler: None,
            pattern: Ghost(Seq::empty()),
        }
    }

    /// The handler registered for this route, if it has one yet.
    pub fn registered(&self) -> (handler: Option<&H>)
        ensures
            match handler {
                Some(h) => self.handler() == Some(*h),
                None => self.handler() is None,
            },
    {
        self.handler.as_ref()
    }

    /// The static segments, in the order of their positions: one for each
    /// literal piece of the pattern, at the position of that piece and with
    /// its text.
    pub fn static_segments(&self) -> (segments: &Vec<StaticSegment>)
        ensures
            forall|i: int|
                0 <= i < segments@.len() ==> (#[trigger] segments@[i]).place() < self@.len()
                    && self@[segments@[i].place() as int] == Piece::Literal(segments@[i].text()),
            forall|i: int, k: int|
                0 <= i < k < segments@.len() ==> (#[trigger] segments@[i]).place() < (
                #[trigger] segments@[k]).place(),
            forall|p: int|
                0 <= p < self@.len() && (#[trigger] self@[p]) is Literal ==> exists|i: int|
                    0 <= i < segments@.len() && (#[trigger] segments@[i]).place() == p,
    {
        proof {
            use_type_invariant(self);
        }
        &self.static_segments
    }

    /// The dynamic segments, in the order of their positions: one for each
    /// capturing piece of the pattern, at the position of that piece and
    /// with its name.
    pub fn dynamic_segments(&self) -> (segments: &Vec<DynamicSegment>)
        ensures
            forall|j: int|
                0 <= j < segments@.len() ==> (#[trigger] segments@[j]).place() < self@.len()
                    && self@[segments@[j].place() as int] == Piece::Capture(segments@[j].label()),
            forall|j: int, k: int|
                0 <= j < k < segments@.len() ==> (#[trigger] segments@[j]).place() < (
                #[trigger] segments@[k]).place(),
            forall|p: int|
                0 <= p < self@.len() && (#[trigger] self@[p]) is Capture ==> exists|j: int|
                    0 <= j < segments@.len() && (#[trigger] segments@[j]).place() == p,
    {
        proof {
            use_type_invariant(self);
        }
        &self.dynamic_segments
    }

    /// The number of segments, which is the number of path segments that
    /// the route can match.
    pub fn len(&self) -> (n: usize)
        ensures
            n == self@.len(),
    {
        proof {
            use_type_invariant(self);
        }
        self.static_segments.len() + self.dynamic_segments.len()
    }

    /// The same route with one more static segment, at the next free
    /// position.
    pub fn with_static(self, value: &'static str) -> (route: Self)
        requires
            self@.len() < usize::MAX,
        ensures
            route@ == self@.push(Piece::Literal(value@)),
            route.handler() == self.handler(),
    {
        proof {
            use_type_invariant(&self);
        }
        let Route { static_segments, dynamic_segments, handler, pattern } = self;
        let mut static_segments = static_segments;
        let position = static_segments.len() + dynamic_segments.len();
        let segment = StaticSegment::new(value, position);
        proof {
            lemma_agree_push_static(static_segments@, dynamic_segments@, pattern@, segment);
        }
        static_segments.push(segment);
        Route {
            static_segments,
            dynamic_segments,
            handler,
            pattern: Ghost(pattern@.push(Piece::Literal(value@))),
        }
    }

    /// The same route with one more dynamic segment, at the next free
    /// position.
    pub fn with_dynamic(self, name: &'static str) -> (route: Self)
        requires
            self@.len() < usize::MAX,
        ensures
            route@ == self@.push(Piece::Capture(name@)),
            route.handler() == self.handler(),
    {
        proof {
            use_type_invariant(&self);
        }
        let Route { static_segments, dynamic_segments, handler, pattern } = self;
        let mut dynamic_segments = dynamic_segments;
        let position = static_segments.len() + dynamic_segments.len();
        let segment = DynamicSegment::new(name, position);
        proof {
            lemma_agree_push_dynamic(static_segments@, dynamic_segments@, pattern@, segment);
        }
        dynamic_segments.push(segment);
        Route {
            static_segments,
            dynamic_segments,
            handler,
            pattern: Ghost(pattern@.push(Piece::Capture(name@))),
        }
    }

    /// The same route with `handler` registered for it.
    pub fn with_handler(self, handler: H) -> (route: Self)
        ensures
            route@ == self@,
            route.handler() == Some(handler),
    {
        proof {
            use_type_invariant(&self);
        }
        let Route { static_segments, dynamic_segments, handler: _, pattern } = self;
        Route { static_segments, dynamic_segments, handler: Some(handler), pattern }
    }

    /// The parameters that this route captures from a path with as many
    /// segments as the route has.
    pub fn bind(&self, raw_route: &RawRoute) -> (params: Params)
        requires
            raw_route@.len() == self@.len(),
        ensures
            params@ == captures(self@, raw_route@),
    {
        proof {
            use_type_invariant(self);
        }
        let ghost pattern = self@;
        let ghost segments = raw_route@;
        let n = self.dynamic_segments.len();
        let mut params = Params::new();
        let mut j: usize = 0;
        proof {
            assert forall|p: int| 0 <= p < self.frontier(0) implies (#[trigger] pattern[p])
                is Literal by {
                if pattern[p] is Capture {
                    let k = choose|k: int|
                        0 <= k < self.dynamic_segments.len() && (
                        #[trigger] self.dynamic_segments[k]).place() == p;
                    assert(self.dynamic_segments[0].place() <= self.dynamic_segments[k].place());
                }
            }
            lemma_captures_skip_literals(pattern, segments, 0, self.frontier(0));
        }
        while j < n
            invariant
                j <= n,
                n == self.dynamic_segments.len(),
                self.coherent(),
                pattern == self@,
                segments == raw_route@,
                segments.len() == pattern.len(),
                params@ == captures(pattern.take(self.frontier(j as int)), segments),
            decreases n - j,
        {
            let segment = &self.dynamic_segments[j];
            let raw = raw_route.segment(segment.position());
            params.insert(segment.name(), raw.value());
            proof {
                let here = segment.place() as int;
                let next = self.frontier(j + 1);
                lemma_captures_step(pattern, segments, here);
                assert forall|p: int| here < p < next implies (#[trigger] pattern[p])
                    is Literal by {
                    if pattern[p] is Capture {
                        let k = choose|k: int|
                            0 <= k < self.dynamic_segments.len() && (
                            #[trigger] self.dynamic_segments[k]).place() == p;
                        if k <= j {
                            assert(self.dynamic_segments[k].place() <= here);
                        } else {
                            assert(next <= self.dynamic_segments[k].place());
                        }
                    }
                }
                lemma_captures_skip_literals(pattern, segments, here + 1, next);
            }
            j += 1;
        }
        proof {
            assert(pattern.take(pattern.len() as int) =~= pattern);
        }
        params
    }

    /// The position of the dynamic segment number `j`, or the length of the
    /// route where it has no more than `j` of them: up to there, the first
    /// `j` dynamic segments are all that the route captures.
    spec fn frontier(&self, j: int) -> int {
        if 0 <= j < self.dynamic_segments.len() {
            self.dynamic_segments[j].place() as int
        } else {
            self@.len() as int
        }
    }

    /// Matches the raw segments of a path against this route and, where
    /// they match, hands back what the route captures from them.
    pub fn try_match(&self, raw_route: &RawRoute) -> (params: Option<Params>)
        ensures
            match params {
                Some(p) => admits(self@, raw_route@) && p@ == captures(self@, raw_route@),
                None => !admits(self@, raw_route@),
            },
    {
        if paths_match(self, raw_route) {
            Some(self.bind(raw_route))
        } else {
            None
        }
    }

    /// Compiles a pattern text such as `/users/{id}`: the text is cut at
    /// every `/`, the part before the first `/` is dropped, and each
    /// remaining part becomes a segment, dynamic where it is a name in
    /// braces and static otherwise.
    pub fn compile(pattern: &'static str) -> (route: Self)
        ensures
            route@ == pattern_of(pattern@),
            route.handler() is None,
    {
        let raw = RawRoute::from_path(pattern);
        let n = raw.len();
        let mut route: Route<H> = Route::new();
        let mut k: usize = 0;
        while k < n
            invariant
                k <= n,
                n == raw@.len(),
                raw@ == raw_segments(pattern@),
                route@ == pattern_of(pattern@).take(k as int),
                route.handler() is None,
            decreases n - k,
        {
            let segment = raw.segment(k).value();
            let len = segment.unicode_len();
            let braced = len >= 2 && segment.get_char(0) == '{' && segment.get_char(len - 1) == '}';
            if braced {
                route = route.with_dynamic(segment.substring_char(1, len - 1));
            } else {
                route = route.with_static(segment);
            }
            k += 1;
        }
        route
    }
}

/// Tells whether a route matches the raw segments of a path: the counts
/// agree and every static segment finds its exact text at its position.
pub fn paths_match<H>(route: &Route<H>, raw_route: &RawRoute) -> (matched: bool)
    ensures
        matched == admits(route@, raw_route@),
{
    proof {
        use_type_invariant(route);
    }
    if raw_route.len() != route.static_segments.len() + route.dynamic_segments.len() {
        return false;
    }
    let n = route.static_segments.len();
    let mut i: usize = 0;
    while i < n
        invariant
            i <= n,
            n == route.static_segments.len(),
            route.coherent(),
            raw_route@.len() == route@.len(),
            forall|k: int|
                0 <= k < i ==> raw_route@[(#[trigger] route.static_segments[k]).place() as int]
                    == route.static_segments[k].text(),
        decreases n - i,
    {
        let segment = &route.static_segments[i];
        let raw = raw_route.segment(segment.position());
        if !(*raw == *segment) {
            assert(!accepts(route@[segment.place() as int], raw_route@[segment.place() as int]));
            return false;
        }
        i += 1;
    }
    proof {
        assert forall|p: int| 0 <= p < route@.len() implies accepts(
            #[trigger] route@[p],
            raw_route@[p],
        ) by {
            if route@[p] is Literal {
                let i = choose|i: int|
                    0 <= i < route.static_segments.len() && (
                    #[trigger] route.static_segments[i]).place() == p;
                assert(raw_route@[p] == route.static_segments[i].text());
            }
        }
    }
    true
}

} // verus!
