//! The segments that a route is made of, and how each compares with a raw
//! segment of a path.

use crate::path::RawSegment;
use crate::text::str_eq;
use vstd::prelude::*;
use vstd::std_specs::cmp::PartialEqSpecImpl;

verus! {

/// A segment of a route that matches one exact text at one position.
pub struct StaticSegment {
    value: &'static str,
    position: usize,
}

/// A segment of a route that matches any text at one position and captures
/// it under a name.
pub struct DynamicSegment {
    name: &'static str,
    position: usize,
}

impl StaticSegment {
    /// The text that the segment matches.
    pub closed spec fn text(&self) -> Seq<char> {
        self.value@
    }

    /// The zero-based place of the segment in its route.
    pub closed spec fn place(&self) -> nat {
        self.position as nat
    }

    /// A static segment with the given text at the given place.
    pub fn new(value: &'static str, position: usize) -> (segment: Self)
        ensures
            segment.text() == value@,
            segment.place() == position,
    {
        StaticSegment { value, position }
    }

    /// The text that the segment matches.
    pub fn value(&self) -> (value: &'static str)
        ensures
            value@ == self.text(),
    {
        self.value
    }

    /// The zero-based place of the segment in its route.
    pub fn position(&self) -> (position: usize)
        ensures
            position == self.place(),
    {
        self.position
    }
}

impl DynamicSegment {
    /// The name under which the segment captures.
    pub closed spec fn label(&self) -> Seq<char> {
        self.name@
    }

    /// The zero-based place of the segment in its route.
    pub closed spec fn place(&self) -> nat {
        self.position as nat
    }

    /// A dynamic segment with the given name at the given place.
    pub fn new(name: &'static str, position: usize) -> (segment: Self)
        ensures
            segment.label() == name@,
            segment.place() == position,
    {
        DynamicSegment { name, position }
    }

    /// The name under which the segment captures.
    pub fn name(&self) -> (name: &'static str)
        ensures
            name@ == self.label(),
    {
        self.name
    }

    /// The zero-based place of the segment in its route.
    pub fn position(&self) -> (position: usize)
        ensures
            position == self.place(),
    {
        self.position
    }
}

impl<'s> PartialEq<RawSegment<'s>> for StaticSegment {
    /// A static segment equals a raw segment that stands at its place and
    /// holds its text.
    fn eq(&self, other: &RawSegment<'s>) -> (same: bool) {
        self.position == other.position() && str_eq(self.value, other.value())
    }
}

impl<'s> PartialEqSpecImpl<RawSegment<'s>> for StaticSegment {
    open spec fn obeys_eq_spec() -> bool {
        true
    }

    open spec fn eq_spec(&self, other: &RawSegment<'s>) -> bool {
        self.place() == other.place() && self.text() == other@
    }
}

impl<'s> PartialEq<RawSegment<'s>> for DynamicSegment {
    /// A dynamic segment equals any raw segment that stands at its place.
    fn eq(&self, other: &RawSegment<'s>) -> (same: bool) {
        self.position == other.position()
    }
}

impl<'s> PartialEqSpecImpl<RawSegment<'s>> for DynamicSegment {
    open spec fn obeys_eq_spec() -> bool {
        true
    }

    open spec fn eq_spec(&self, other: &RawSegment<'s>) -> bool {
        self.place() == other.place()
    }
}

impl<'s> PartialEq<StaticSegment> for RawSegment<'s> {
    /// A raw segment equals the static segments that equal it.
    fn eq(&self, other: &StaticSegment) -> (same: bool) {
        other == self
    }
}

impl<'s> PartialEqSpecImpl<StaticSegment> for RawSegment<'s> {
    open spec fn obeys_eq_spec() -> bool {
        true
    }

    open spec fn eq_spec(&self, other: &StaticSegment) -> bool {
        other.place() == self.place() && other.text() == self@
    }
}

impl<'s> PartialEq<DynamicSegment> for RawSegment<'s> {
    /// A raw segment equals the dynamic segments that equal it.
    fn eq(&self, other: &DynamicSegment) -> (same: bool) {
        other == self
    }
}

impl<'s> PartialEqSpecImpl<DynamicSegment> for RawSegment<'s> {
    open spec fn obeys_eq_spec() -> bool {
        true
    }

    open spec fn eq_spec(&self, other: &DynamicSegment) -> bool {
        other.place() == self.place()
    }
}

} // verus!
