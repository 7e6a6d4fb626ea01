//! The mathematical model of route patterns, of matching a path against
//! one, and of choosing among several.
//!
//! A pattern is a sequence of pieces, one for each path segment it can
//! match. A path is a sequence of raw segments. Everything the executable
//! code promises is stated over these two sequences.

use vstd::prelude::*;

verus! {

/// One position of a route pattern.
pub enum Piece {
    /// Matches only a segment that equals this text exactly.
    Literal(Seq<char>),
    /// Matches any segment and captures it under this name.
    Capture(Seq<char>),
}

/// Whether one piece lets one raw segment through.
pub open spec fn accepts(piece: Piece, segment: Seq<char>) -> bool {
    match piece {
        Piece::Literal(text) => segment == text,
        Piece::Capture(_) => true,
    }
}

/// Whether a pattern matches a path: the segment counts agree and every
/// piece accepts the segment at its own position.
pub open spec fn admits(pattern: Seq<Piece>, segments: Seq<Seq<char>>) -> bool {
    &&& segments.len() == pattern.len()
    &&& forall|p: int| 0 <= p < pattern.len() ==> accepts(#[trigger] pattern[p], segments[p])
}

/// The parameters that a pattern captures from a path of the same length:
/// each capturing piece, from the first position to the last, binds its name
/// to the raw segment at its position. Where a name occurs twice, the later
/// position wins.
pub open spec fn captures(pattern: Seq<Piece>, segments: Seq<Seq<char>>) -> Map<
    Seq<char>,
    Seq<char>,
>
    decreases pattern.len(),
{
    if pattern.len() == 0 {
        Map::empty()
    } else {
        let earlier = captures(pattern.drop_last(), segments);
        match pattern.last() {
            Piece::Capture(name) => earlier.insert(name, segments[pattern.len() - 1]),
            Piece::Literal(_) => earlier,
        }
    }
}

/// Whether a pattern has no capturing piece.
pub open spec fn all_literal(pattern: Seq<Piece>) -> bool {
    forall|p: int| 0 <= p < pattern.len() ==> #[trigger] pattern[p] is Literal
}

/// The path that a pattern without captures stands for.
pub open spec fn literal_path(pattern: Seq<Piece>) -> Seq<Seq<char>> {
    Seq::new(pattern.len(), |p: int| pattern[p]->Literal_0)
}

/// Whether, among patterns in registration order, the one at index `i` is
/// chosen for a path: it matches, and none registered before it does.
pub open spec fn selects(patterns: Seq<Seq<Piece>>, segments: Seq<Seq<char>>, i: int) -> bool {
    &&& 0 <= i < patterns.len()
    &&& admits(patterns[i], segments)
    &&& forall|j: int| 0 <= j < i ==> !admits(#[trigger] patterns[j], segments)
}

/// Whether no pattern of the list matches a path.
pub open spec fn none_matches(patterns: Seq<Seq<Piece>>, segments: Seq<Seq<char>>) -> bool {
    forall|j: int| 0 <= j < patterns.len() ==> !admits(#[trigger] patterns[j], segments)
}

/// The text of a path cut at every `/`. A text without `/` is one part; a
/// text that ends in `/` has an empty last part.
pub open spec fn parts(text: Seq<char>) -> Seq<Seq<char>>
    decreases text.len(),
{
    if text.len() == 0 {
        seq![Seq::empty()]
    } else {
        let before = parts(text.drop_last());
        if text.last() == '/' {
            before.push(Seq::empty())
        } else {
            before.drop_last().push(before.last().push(text.last()))
        }
    }
}

/// The raw segments of a path: its parts without the first one, which for a
/// path that begins with `/` is the empty text before that `/`.
pub open spec fn raw_segments(path: Seq<char>) -> Seq<Seq<char>> {
    parts(path).drop_first()
}

/// The piece that one segment of a pattern text stands for: `{name}` is a
/// capture under `name`, anything else is a literal.
pub open spec fn piece_of(segment: Seq<char>) -> Piece {
    if segment.len() >= 2 && segment.first() == '{' && segment.last() == '}' {
        Piece::Capture(segment.subrange(1, segment.len() - 1))
    } else {
        Piece::Literal(segment)
    }
}

/// The pattern that a pattern text such as `/users/{id}` stands for.
pub open spec fn pattern_of(text: Seq<char>) -> Seq<Piece> {
    raw_segments(text).map_values(|segment: Seq<char>| piece_of(segment))
}

/// Whether a text holds no `/`.
pub open spec fn slash_free(text: Seq<char>) -> bool {
    forall|k: int| 0 <= k < text.len() ==> text[k] != '/'
}

/// The parts of a text put together again, with a `/` between each two.
pub open spec fn joined(pieces: Seq<Seq<char>>) -> Seq<char>
    decreases pieces.len(),
{
    if pieces.len() == 0 {
        Seq::empty()
    } else if pieces.len() == 1 {
        pieces[0]
    } else {
        joined(pieces.drop_last()) + seq!['/'] + pieces.last()
    }
}

/// Cutting a text yields at least one part, no part holds a `/`, and the
/// parts joined by `/` are the text again.
pub proof fn lemma_parts_rejoin(text: Seq<char>)
    ensures
        parts(text).len() >= 1,
        forall|k: int| 0 <= k < parts(text).len() ==> slash_free(#[trigger] parts(text)[k]),
        joined(parts(text)) == text,
    decreases text.len(),
{
    if text.len() > 0 {
        let shorter = text.drop_last();
        let before = parts(shorter);
        lemma_parts_rejoin(shorter);
        if text.last() == '/' {
            let cut = before.push(Seq::empty());
            assert(cut.drop_last() =~= before);
        } else {
            let cut = before.drop_last().push(before.last().push(text.last()));
            assert(cut.drop_last() =~= before.drop_last());
            if before.len() > 1 {
                assert(joined(cut) =~= joined(before).push(text.last()));
            }
        }
    }
}

/// The parts of a text are the only way to cut it at every `/`: any run of
/// texts without `/` that joins to the text is the run of its parts.
pub proof fn lemma_parts_unique(pieces: Seq<Seq<char>>, text: Seq<char>)
    requires
        pieces.len() >= 1,
        forall|k: int| 0 <= k < pieces.len() ==> slash_free(#[trigger] pieces[k]),
        joined(pieces) == text,
    ensures
        pieces == parts(text),
    decreases text.len(),
{
    let last = pieces.last();
    if text.len() == 0 {
        assert(pieces[0] =~= Seq::<char>::empty());
    } else if last.len() == 0 {
        let rest = pieces.drop_last();
        assert(text.drop_last() =~= joined(rest));
        lemma_parts_unique(rest, text.drop_last());
        assert(last =~= Seq::<char>::empty());
    } else {
        let trimmed = pieces.drop_last().push(last.drop_last());
        assert(last =~= last.drop_last().push(last.last()));
        assert(trimmed.drop_last() =~= pieces.drop_last());
        if pieces.len() > 1 {
            assert(joined(trimmed) =~= text.drop_last());
        }
        assert forall|k: int| 0 <= k < trimmed.len() implies slash_free(#[trigger] trimmed[k]) by {
            if k == pieces.len() - 1 {
                assert forall|m: int| 0 <= m < last.drop_last().len() implies last.drop_last()[m]
                    != '/' by {}
            }
        }
        lemma_parts_unique(trimmed, text.drop_last());
    }
}

/// What a pattern captures up to and with position `q` is what it captures
/// before `q`, and the binding of the piece at `q` if that piece captures.
pub proof fn lemma_captures_step(pattern: Seq<Piece>, segments: Seq<Seq<char>>, q: int)
    requires
        0 <= q < pattern.len(),
    ensures
        captures(pattern.take(q + 1), segments) == match pattern[q] {
            Piece::Capture(name) => captures(pattern.take(q), segments).insert(name, segments[q]),
            Piece::Literal(_) => captures(pattern.take(q), segments),
        },
{
    assert(pattern.take(q + 1).drop_last() =~= pattern.take(q));
}

/// A stretch of literal pieces captures nothing.
pub proof fn lemma_captures_skip_literals(
    pattern: Seq<Piece>,
    segments: Seq<Seq<char>>,
    from: int,
    to: int,
)
    requires
        0 <= from <= to <= pattern.len(),
        forall|p: int| from <= p < to ==> (#[trigger] pattern[p]) is Literal,
    ensures
        captures(pattern.take(from), segments) == captures(pattern.take(to), segments),
    decreases to - from,
{
    if from < to {
        lemma_captures_skip_literals(pattern, segments, from, to - 1);
        lemma_captures_step(pattern, segments, to - 1);
    }
}

/// A route never matches a path whose segment count differs from its own,
/// and so is never chosen for one.
pub proof fn lemma_count_mismatch_never_matches(
    patterns: Seq<Seq<Piece>>,
    segments: Seq<Seq<char>>,
    i: int,
)
    requires
        0 <= i < patterns.len(),
        patterns[i].len() != segments.len(),
    ensures
        !admits(patterns[i], segments),
        !selects(patterns, segments, i),
{
}

/// A route of static segments only matches exactly one path: the one whose
/// segments are its literals, each at its position.
pub proof fn lemma_static_route_matches_its_path(pattern: Seq<Piece>, segments: Seq<Seq<char>>)
    requires
        all_literal(pattern),
    ensures
        admits(pattern, segments) <==> segments == literal_path(pattern),
{
    if admits(pattern, segments) {
        assert(segments =~= literal_path(pattern));
    }
}

/// Whatever stands at the position of a dynamic segment, the route matches
/// as it did before.
pub proof fn lemma_dynamic_segment_matches_any(
    pattern: Seq<Piece>,
    segments: Seq<Seq<char>>,
    p: int,
    other: Seq<char>,
)
    requires
        0 <= p < pattern.len(),
        p < segments.len(),
        pattern[p] is Capture,
    ensures
        admits(pattern, segments) <==> admits(pattern, segments.update(p, other)),
{
}

/// A dynamic segment captures the raw segment at its position, unchanged,
/// under its name, provided that no later segment captures under the same
/// name.
pub proof fn lemma_capture_is_raw_segment(
    pattern: Seq<Piece>,
    segments: Seq<Seq<char>>,
    p: int,
    name: Seq<char>,
)
    requires
        0 <= p < pattern.len(),
        pattern[p] == Piece::Capture(name),
        forall|q: int| p < q < pattern.len() ==> #[trigger] pattern[q] != Piece::Capture(name),
    ensures
        captures(pattern, segments).contains_key(name),
        captures(pattern, segments)[name] == segments[p],
    decreases pattern.len(),
{
    if p < pattern.len() - 1 {
        lemma_capture_is_raw_segment(pattern.drop_last(), segments, p, name);
    }
}

/// A route captures under the names of its dynamic segments and under no
/// other name.
pub proof fn lemma_captured_names(pattern: Seq<Piece>, segments: Seq<Seq<char>>, name: Seq<char>)
    ensures
        captures(pattern, segments).contains_key(name) <==> exists|p: int|
            0 <= p < pattern.len() && #[trigger] pattern[p] == Piece::Capture(name),
    decreases pattern.len(),
{
    if pattern.len() > 0 {
        let shorter = pattern.drop_last();
        let last = pattern.len() - 1;
        lemma_captured_names(shorter, segments, name);
        if captures(pattern, segments).contains_key(name) && pattern.last() != Piece::Capture(
            name,
        ) {
            let p = choose|p: int|
                0 <= p < shorter.len() && #[trigger] shorter[p] == Piece::Capture(name);
            assert(pattern[p] == Piece::Capture(name));
        }
        if exists|p: int| 0 <= p < pattern.len() && #[trigger] pattern[p] == Piece::Capture(name) {
            let p = choose|p: int|
                0 <= p < pattern.len() && #[trigger] pattern[p] == Piece::Capture(name);
            if p < last {
                assert(shorter[p] == Piece::Capture(name));
            }
        }
    }
}

/// Where some route matches a path, exactly one route is chosen for it, and
/// it stands no later than any route that matches.
pub proof fn lemma_first_match_exists(
    patterns: Seq<Seq<Piece>>,
    segments: Seq<Seq<char>>,
    j: int,
) -> (i: int)
    requires
        0 <= j < patterns.len(),
        admits(patterns[j], segments),
    ensures
        0 <= i <= j,
        selects(patterns, segments, i),
    decreases j,
{
    if exists|k: int| 0 <= k < j && admits(#[trigger] patterns[k], segments) {
        let k = choose|k: int| 0 <= k < j && admits(#[trigger] patterns[k], segments);
        lemma_first_match_exists(patterns, segments, k)
    } else {
        j
    }
}

/// Of two routes that both match a path, the one registered later is not
/// chosen: the choice falls on the earlier one, or on one registered before
/// both.
pub proof fn lemma_earlier_route_wins(
    patterns: Seq<Seq<Piece>>,
    segments: Seq<Seq<char>>,
    earlier: int,
    later: int,
)
    requires
        0 <= earlier < later < patterns.len(),
        admits(patterns[earlier], segments),
        admits(patterns[later], segments),
    ensures
        !selects(patterns, segments, later),
        exists|i: int| 0 <= i <= earlier && selects(patterns, segments, i),
        (forall|k: int| 0 <= k < earlier ==> !admits(#[trigger] patterns[k], segments))
            ==> selects(patterns, segments, earlier),
{
    lemma_first_match_exists(patterns, segments, earlier);
}

/// The choice among routes is determined: no two routes are chosen for the
/// same path.
pub proof fn lemma_choice_is_unique(
    patterns: Seq<Seq<Piece>>,
    segments: Seq<Seq<char>>,
    i: int,
    k: int,
)
    requires
        selects(patterns, segments, i),
        selects(patterns, segments, k),
    ensures
        i == k,
{
}

} // verus!
