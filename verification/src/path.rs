//! Raw path segments: an incoming path cut into the pieces that patterns
//! are matched against.

use crate::pattern::{parts, raw_segments};
use vstd::prelude::*;
use vstd::std_specs::iter::IteratorSpec;

verus! {

broadcast use vstd::string::group_string_axioms;

/// One segment of an incoming path: a slice of the path and the place it
/// holds among the segments.
pub struct RawSegment<'s> {
    value: &'s str,
    position: usize,
}

/// The raw segments of one incoming path, in order.
pub struct RawRoute<'s> {
    raw_segments: Vec<RawSegment<'s>>,
}

/// The texts of a run of raw segments.
spec fn texts(segments: Seq<RawSegment<'_>>) -> Seq<Seq<char>> {
    Seq::new(segments.len(), |k: int| segments[k].value@)
}

impl<'s> View for RawSegment<'s> {
    type V = Seq<char>;

    closed spec fn view(&self) -> Seq<char> {
        self.value@
    }
}

impl<'s> RawSegment<'s> {
    /// The zero-based place of the segment in its path.
    pub closed spec fn place(&self) -> nat {
        self.position as nat
    }

    /// The text of the segment, exactly as it stands in the path.
    pub fn value(&self) -> (value: &'s str)
        ensures
            value@ == self@,
    {
        self.value
    }

    /// The zero-based place of the segment in its path.
    pub fn position(&self) -> (position: usize)
        ensures
            position == self.place(),
    {
        self.position
    }
}

impl<'s> View for RawRoute<'s> {
    type V = Seq<Seq<char>>;

    closed spec fn view(&self) -> Seq<Seq<char>> {
        texts(self.raw_segments@)
    }
}

impl<'s> RawRoute<'s> {
    /// Every segment records the index at which it stands.
    #[verifier::type_invariant]
    spec fn numbered(self) -> bool {
        forall|k: int|
            0 <= k < self.raw_segments.len() ==> (#[trigger] self.raw_segments[k]).position == k
    }

    /// Cuts a path at every `/` and drops the part before the first `/`.
    /// Nothing is decoded or normalised: the segments are slices of `path`.
    pub fn from_path(path: &'s str) -> (raw: Self)
        ensures
            raw@ == raw_segments(path@),
    {
        let n = path.unicode_len();
        let mut chars = path.chars();
        let mut segments: Vec<RawSegment<'s>> = Vec::new();
        let mut start: usize = 0;
        let mut leading = true;
        let mut i: usize = 0;
        let ghost mut cut: Seq<Seq<char>> = seq![Seq::empty()];
        loop
            invariant
                start <= i <= n,
                n == path@.len(),
                chars.obeys_prophetic_iter_laws(),
                chars.remaining() == path@.skip(i as int),
                cut == parts(path@.take(i as int)),
                cut.len() >= 1,
                cut.last() == path@.subrange(start as int, i as int),
                leading ==> cut.len() == 1 && segments.len() == 0,
                !leading ==> cut.len() == segments.len() + 2,
                !leading ==> cut.drop_first().drop_last() == texts(segments@),
                forall|k: int| 0 <= k < segments.len() ==> (#[trigger] segments[k]).position == k,
            ensures
                i == n,
            decreases n - i,
        {
            let c = match chars.next() {
                Some(c) => c,
                None => {
                    break;
                },
            };
            proof {
                assert(path@.take(i + 1).drop_last() =~= path@.take(i as int));
            }
            if c == '/' {
                if leading {
                    leading = false;
                } else {
                    let ghost before = segments@;
                    let value = path.substring_char(start, i);
                    let position = segments.len();
                    segments.push(RawSegment { value, position });
                    proof {
                        assert(texts(segments@) =~= texts(before).push(value@));
                    }
                }
                start = i + 1;
                proof {
                    cut = cut.push(Seq::empty());
                }
            } else {
                proof {
                    let grown = cut.drop_last().push(cut.last().push(c));
                    cut = grown;
                }
            }
            i += 1;
        }
        proof {
            assert(path@.take(n as int) =~= path@);
        }
        if !leading {
            let ghost before = segments@;
            let value = path.substring_char(start, n);
            let position = segments.len();
            segments.push(RawSegment { value, position });
            proof {
                assert(texts(segments@) =~= texts(before).push(value@));
            }
        }
        RawRoute { raw_segments: segments }
    }

    /// The number of segments.
    pub fn len(&self) -> (n: usize)
        ensures
            n == self@.len(),
    {
        self.raw_segments.len()
    }

    /// The segment at place `index` of a path that has that many.
    pub fn segment(&self, index: usize) -> (segment: &RawSegment<'s>)
        requires
            index < self@.len(),
        ensures
            segment@ == self@[index as int],
            segment.place() == index,
    {
        proof {
            use_type_invariant(self);
        }
        &self.raw_segments[index]
    }

    /// The segment at place `index`, if the path has that many.
    pub fn get(&self, index: usize) -> (segment: Option<&RawSegment<'s>>)
        ensures
            match segment {
                Some(s) => index < self@.len() && s@ == self@[index as int] && s.place() == index,
                None => index >= self@.len(),
            },
    {
        if index < self.raw_segments.len() {
            proof {
                use_type_invariant(self);
            }
            Some(&self.raw_segments[index])
        } else {
            None
        }
    }
}

} // verus!
