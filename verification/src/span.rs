//! Spans of the source text.
use vstd::prelude::*;

verus! {

/// A span of the source: the byte offsets of its start and of its end.
#[derive(Debug, Clone, Copy, PartialEq, Eq, Structural, Hash)]
pub struct Span {
    pub start: usize,
    pub end: usize,
}

/// The smallest span that covers both `a` and `b`.
pub open spec fn union_of(a: Span, b: Span) -> Span {
    Span {
        start: if a.start <= b.start { a.start } else { b.start },
        end: if a.end >= b.end { a.end } else { b.end },
    }
}

impl Span {
    /// The smallest span that covers both `a` and `b`.
    pub fn union_span(a: Span, b: Span) -> (r: Span)
        ensures
            r == union_of(a, b),
    {
        Span {
            start: if a.start <= b.start { a.start } else { b.start },
            end: if a.end >= b.end { a.end } else { b.end },
        }
    }
}

} // verus!
