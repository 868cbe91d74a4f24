//! Byte ranges in a source file.

use vstd::prelude::*;

verus! {

/// Range of bytes in a source file.
///
/// The range is half-open: `start` is included, `end` is excluded.
/// A well-formed span has `end >= start`; every constructor and operation
/// of this module preserves that shape, but the fields stay public so a
/// span can also be built or adjusted directly.
#[derive(Default, Clone, Copy, PartialEq, Eq, Hash, PartialOrd, Ord, Debug, Structural)]
pub struct Span {
    /// Start byte (included).
    pub start: usize,

    /// End byte (excluded).
    pub end: usize,
}

impl Span {
    /// A span is well formed when its end does not precede its start.
    pub open spec fn wf(self) -> bool {
        self.start <= self.end
    }

    /// Number of bytes covered by the span.
    pub open spec fn spec_len(self) -> int {
        if self.start <= self.end {
            self.end - self.start
        } else {
            0
        }
    }

    /// A byte index lies in the span exactly when it is in `[start, end)`.
    pub open spec fn spec_contains(self, index: int) -> bool {
        self.start <= index && index < self.end
    }

    /// Smallest span covering both operands, gap included.
    pub open spec fn spec_union(self, other: Span) -> Span {
        Span {
            start: if self.start <= other.start {
                self.start
            } else {
                other.start
            },
            end: if self.end >= other.end {
                self.end
            } else {
                other.end
            },
        }
    }

    /// Overlapping range of the two operands, or the empty span at the
    /// maximum of the two starts when they are disjoint.
    pub open spec fn spec_inter(self, other: Span) -> Span {
        let s = if self.start >= other.start {
            self.start
        } else {
            other.start
        };
        let e = if self.end <= other.end {
            self.end
        } else {
            other.end
        };
        Span { start: s, end: if s >= e { s } else { e } }
    }

    /// `self` covers every position of `other`.
    pub open spec fn spec_includes(self, other: Span) -> bool {
        self.start <= other.start && other.end <= self.end
    }

    /// Creates a new `Span` from the index of its starting byte (included)
    /// and ending byte (excluded).
    ///
    /// If `end` is lower than `start`, then `start` is used as the ending
    /// position instead, so the result is always well formed.
    pub fn new(start: usize, end: usize) -> (r: Span)
        ensures
            r.wf(),
            r.start == start,
            start <= end ==> r.end == end,
            end < start ==> r.end == start,
    {
        Span { start, end: if end < start { start } else { end } }
    }

    /// Size of the span in bytes.
    pub fn len(&self) -> (r: usize)
        ensures
            r == self.spec_len(),
            self.wf() ==> r == self.end - self.start,
    {
        if self.start > self.end {
            0
        } else {
            self.end - self.start
        }
    }

    /// Checks if the span is empty: whether its start and end positions
    /// are equal.
    pub fn is_empty(&self) -> (r: bool)
        ensures
            r == (self.start == self.end),
    {
        self.end == self.start
    }

    /// Returns the range of bytes inside the span.
    pub fn range(&self) -> (r: core::ops::Range<usize>)
        ensures
            r.start == self.start,
            r.end == self.end,
    {
        core::ops::Range { start: self.start, end: self.end }
    }

    /// Checks if the given byte index is included in the span: true exactly
    /// for indices in `[start, end)`, so false for `end` itself and for any
    /// index below `start`.
    pub fn contains(&self, index: usize) -> (r: bool)
        ensures
            r == self.spec_contains(index as int),
    {
        self.start <= index && index < self.end
    }

    /// Computes the union of two spans.
    ///
    /// If the two spans do not overlap, all the positions in between are
    /// included in the resulting span.
    pub fn union(&self, other: Span) -> (r: Span)
        ensures
            r == self.spec_union(other),
    {
        Span {
            start: if self.start <= other.start {
                self.start
            } else {
                other.start
            },
            end: if self.end >= other.end {
                self.end
            } else {
                other.end
            },
        }
    }

    /// Extends this span to include `other`.
    ///
    /// This is the *in-place* version of [`union`](Self::union).
    pub fn append(&mut self, other: Span)
        ensures
            *final(self) == old(self).spec_union(other),
    {
        if other.start < self.start {
            self.start = other.start;
        }
        if other.end > self.end {
            self.end = other.end;
        }
    }

    /// Computes the intersection of two spans.
    ///
    /// If the two spans do not overlap, the empty span located at the
    /// maximum of the two start positions is returned.
    pub fn inter(&self, other: Span) -> (r: Span)
        ensures
            r == self.spec_inter(other),
    {
        let start = if self.start >= other.start {
            self.start
        } else {
            other.start
        };
        let end = if self.end <= other.end {
            self.end
        } else {
            other.end
        };
        Span { start, end: if start >= end { start } else { end } }
    }

    /// Clears the span by moving its start position to its end position:
    /// what remains is the empty span located at the end of the original
    /// range, not at its start.
    pub fn clear(&mut self)
        ensures
            final(self).start == old(self).end,
            final(self).end == old(self).end,
    {
        self.start = self.end;
    }

    /// Returns the "next" span: the empty span starting at the end of this
    /// one.
    pub fn next(&self) -> (r: Span)
        ensures
            r.start == self.end,
            r.end == self.end,
            r.wf(),
    {
        Span { start: self.end, end: self.end }
    }

    /// Pushes `count` bytes to the span by moving its end position forward
    /// by `count`.
    pub fn push(&mut self, count: usize)
        requires
            old(self).end + count <= usize::MAX,
        ensures
            final(self).start == old(self).start,
            final(self).end == old(self).end + count,
    {
        self.end = self.end + count;
    }
}

impl From<usize> for Span {
    /// A bare position converts to the empty span at that position.
    fn from(pos: usize) -> (r: Span) {
        Span { start: pos, end: pos }
    }
}

impl vstd::std_specs::convert::FromSpecImpl<usize> for Span {
    open spec fn obeys_from_spec() -> bool {
        true
    }

    open spec fn from_spec(pos: usize) -> Span {
        Span { start: pos, end: pos }
    }
}

impl From<core::ops::Range<usize>> for Span {
    /// A range converts like [`Span::new`], clamping a reversed range.
    fn from(range: core::ops::Range<usize>) -> (r: Span) {
        Span::new(range.start, range.end)
    }
}

impl vstd::std_specs::convert::FromSpecImpl<core::ops::Range<usize>> for Span {
    open spec fn obeys_from_spec() -> bool {
        true
    }

    open spec fn from_spec(range: core::ops::Range<usize>) -> Span {
        Span {
            start: range.start,
            end: if range.end < range.start {
                range.start
            } else {
                range.end
            },
        }
    }
}

impl From<Span> for core::ops::Range<usize> {
    fn from(span: Span) -> (r: core::ops::Range<usize>) {
        core::ops::Range { start: span.start, end: span.end }
    }
}

impl vstd::std_specs::convert::FromSpecImpl<Span> for core::ops::Range<usize> {
    open spec fn obeys_from_spec() -> bool {
        true
    }

    open spec fn from_spec(span: Span) -> core::ops::Range<usize> {
        core::ops::Range { start: span.start, end: span.end }
    }
}

/// The union of a span with itself is the span unchanged.
pub proof fn lemma_span_union_self(a: Span)
    ensures
        a.spec_union(a) == a,
{
}

/// Union is commutative.
pub proof fn lemma_span_union_comm(a: Span, b: Span)
    ensures
        a.spec_union(b) == b.spec_union(a),
{
}

/// Intersection is commutative.
pub proof fn lemma_span_inter_comm(a: Span, b: Span)
    ensures
        a.spec_inter(b) == b.spec_inter(a),
{
}

/// The intersection of two well-formed spans is always contained in their
/// union.
pub proof fn lemma_span_inter_in_union(a: Span, b: Span)
    requires
        a.wf(),
        b.wf(),
    ensures
        a.spec_union(b).spec_includes(a.spec_inter(b)),
{
}

/// On a well-formed span, the length is exactly `end - start`.
pub proof fn lemma_span_len(a: Span)
    requires
        a.wf(),
    ensures
        a.spec_len() == a.end - a.start,
{
}

/// Value with a span.
pub trait Spanned {
    fn span(&self) -> Span;
}

impl Spanned for Span {
    fn span(&self) -> (r: Span)
        ensures
            r == *self,
    {
        *self
    }
}

/// Value with an optional span.
pub trait MaybeSpanned {
    fn optional_span(&self) -> Option<Span>;
}

impl MaybeSpanned for Span {
    fn optional_span(&self) -> (r: Option<Span>)
        ensures
            r == Some(*self),
    {
        Some(*self)
    }
}

} // verus!

