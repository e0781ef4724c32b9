//! Source spans: the location tags that values and cast results carry so
//! diagnostics can point at the right source text.

use vstd::prelude::*;

verus! {

/// A byte range in the source text.
#[derive(Debug, Clone, Copy, PartialEq, Eq, Structural)]
pub struct Span {
    pub lo: u64,
    pub hi: u64,
}

/// A value tagged with the span it came from.
#[derive(Debug, Clone)]
pub struct Spanned<T> {
    pub v: T,
    pub span: Span,
}

impl Span {
    /// A span from its bounds.
    pub fn new(lo: u64, hi: u64) -> (s: Self)
        ensures
            s == (Span { lo, hi }),
    {
        Span { lo, hi }
    }

    /// The zero span.
    pub fn zero() -> (s: Self)
        ensures
            s == (Span { lo: 0, hi: 0 }),
    {
        Span { lo: 0, hi: 0 }
    }
}

impl<T> Spanned<T> {
    /// Tags a value with a span.
    pub fn new(v: T, span: Span) -> (s: Self)
        ensures
            s.v == v,
            s.span == span,
    {
        Spanned { v, span }
    }

    /// Tags a value with the zero span.
    pub fn zero(v: T) -> (s: Self)
        ensures
            s.v == v,
            s.span == (Span { lo: 0, hi: 0 }),
    {
        Spanned { v, span: Span { lo: 0, hi: 0 } }
    }
}

} // verus!
