//! Half-open byte ranges over one source text.

use std::ops::Range;

use cstree::text::TextRange;

use vstd::prelude::*;

verus! {

/// The half-open byte interval `[start, end)` of a source text.
///
/// Nothing checks `start <= end` on construction: callers derive spans from
/// offsets that already satisfy it, and the operations that need it say so.
#[derive(Debug, Clone, Copy, PartialEq, Eq, Structural, PartialOrd, Ord, Hash)]
pub struct Span {
    pub start: u32,
    pub end: u32,
}

impl Span {
    /// The span's bounds are in order.
    pub open spec fn valid(self) -> bool {
        self.start <= self.end
    }

    /// The number of offsets the span covers.
    pub open spec fn width(self) -> int {
        self.end - self.start
    }

    /// `offset` lies in `[start, end)`.
    pub open spec fn has_offset(self, offset: int) -> bool {
        self.start <= offset && offset < self.end
    }

    /// `that` lies inside `self`, both bounds inclusive.
    pub open spec fn encloses(self, that: Span) -> bool {
        self.start <= that.start && that.end <= self.end
    }

    pub open spec fn spec_min(a: u32, b: u32) -> u32 {
        if a <= b { a } else { b }
    }

    pub open spec fn spec_max(a: u32, b: u32) -> u32 {
        if a <= b { b } else { a }
    }

    /// The overlap of two spans: `None` where the later start lies beyond the
    /// earlier end. Spans that only touch overlap in an empty span.
    pub open spec fn overlap(self, that: Span) -> Option<Span> {
        let start = Self::spec_max(self.start, that.start);
        let end = Self::spec_min(self.end, that.end);
        if start <= end {
            Some(Span { start, end })
        } else {
            None
        }
    }

    /// The smallest span that holds both spans.
    pub open spec fn hull(self, that: Span) -> Span {
        Span {
            start: Self::spec_min(self.start, that.start),
            end: Self::spec_max(self.end, that.end),
        }
    }

    pub fn new(start: u32, end: u32) -> (r: Span)
        ensures
            r == (Span { start, end }),
    {
        Span { start, end }
    }

    /// The `usize` range from `start` to `end`.
    pub fn std_range(start: u32, end: u32) -> (r: Range<usize>)
        ensures
            r.start == start as usize,
            r.end == end as usize,
    {
        Span::new(start, end).as_std()
    }

    /// This span as a `usize` range.
    pub fn as_std(self) -> (r: Range<usize>)
        ensures
            r.start == self.start as usize,
            r.end == self.end as usize,
    {
        Range { start: self.start as usize, end: self.end as usize }
    }

    /// The span of `len` offsets from `start`.
    pub fn at(start: u32, len: u32) -> (r: Span)
        requires
            start + len <= u32::MAX,
        ensures
            r == (Span { start, end: (start + len) as u32 }),
            r.valid(),
            r.width() == len,
    {
        Span::new(start, start + len)
    }

    /// The span of `len` offsets that ends at `end`.
    pub fn at_end(end: u32, len: u32) -> (r: Span)
        requires
            len <= end,
        ensures
            r == (Span { start: (end - len) as u32, end }),
            r.valid(),
            r.width() == len,
    {
        Span::new(end - len, end)
    }

    /// The zero-width span at `start`.
    pub fn empty(start: u32) -> (r: Span)
        ensures
            r == (Span { start, end: start }),
    {
        Span::new(start, start)
    }

    /// The span from offset zero up to `end`.
    pub fn up_to(end: u32) -> (r: Span)
        ensures
            r == (Span { start: 0, end }),
    {
        Span::new(0, end)
    }

    /// The number of offsets the span covers.
    pub fn len(self) -> (r: u32)
        requires
            self.valid(),
        ensures
            r == self.width(),
    {
        self.end - self.start
    }

    pub fn is_empty(self) -> (r: bool)
        ensures
            r == (self.start == self.end),
    {
        self.start == self.end
    }

    /// Whether `that` lies inside this span, both bounds inclusive.
    pub fn contains(self, that: Span) -> (r: bool)
        ensures
            r == self.encloses(that),
    {
        self.start <= that.start && that.end <= self.end
    }

    /// Whether `offset` is one of the offsets this span covers; the end is
    /// not one of them.
    pub fn contains_offset(self, offset: u32) -> (r: bool)
        ensures
            r == self.has_offset(offset as int),
    {
        self.start <= offset && offset < self.end
    }

    /// The part that both spans cover, if they overlap or touch.
    pub fn intersect(self, that: Span) -> (r: Option<Span>)
        ensures
            r == self.overlap(that),
    {
        let start = if self.start <= that.start { that.start } else { self.start };
        let end = if self.end <= that.end { self.end } else { that.end };
        if start <= end {
            Some(Span::new(start, end))
        } else {
            None
        }
    }

    /// The smallest span that holds both spans.
    pub fn cover(self, that: Span) -> (r: Span)
        ensures
            r == self.hull(that),
    {
        let start = if self.start <= that.start { self.start } else { that.start };
        let end = if self.end <= that.end { that.end } else { self.end };
        Span::new(start, end)
    }
}

impl Span {
    /// The span of a `usize` range whose bounds fit in 32 bits.
    pub fn from_std(range: Range<usize>) -> (r: Span)
        requires
            range.start <= u32::MAX,
            range.end <= u32::MAX,
        ensures
            r.start == range.start,
            r.end == range.end,
    {
        Span { start: range.start as u32, end: range.end as u32 }
    }
}

#[verifier::external_type_specification]
#[verifier::external_body]
pub struct ExTextRange(TextRange);

/// The start and end offsets of a text range.
pub uninterp spec fn text_range_bounds_of(range: TextRange) -> (u32, u32);

/// Relies on `TextRange::new`, which asserts `start <= end` and keeps both
/// bounds as given, and on `TextSize::from(u32)`, which wraps the offset as
/// it is.
#[verifier::external_body]
fn text_range_new(start: u32, end: u32) -> (r: TextRange)
    requires
        start <= end,
    ensures
        text_range_bounds_of(r) == (start, end),
{
    TextRange::new(start.into(), end.into())
}

/// Relies on `TextRange::start` and `TextRange::end`, whose values are in
/// order by the invariant that every constructor of `TextRange` asserts, and
/// on `u32::from(TextSize)`, which unwraps the offset.
#[verifier::external_body]
fn text_range_bounds(range: &TextRange) -> (r: (u32, u32))
    ensures
        r == text_range_bounds_of(*range),
        r.0 <= r.1,
{
    (range.start().into(), range.end().into())
}

impl Span {
    /// This span as the tree library's text range.
    pub fn text_range(self) -> (r: TextRange)
        requires
            self.valid(),
        ensures
            text_range_bounds_of(r) == (self.start, self.end),
    {
        text_range_new(self.start, self.end)
    }

    /// The span of the tree library's text range.
    pub fn from_text_range(range: &TextRange) -> (r: Span)
        ensures
            (r.start, r.end) == text_range_bounds_of(*range),
            r.valid(),
    {
        let (start, end) = text_range_bounds(range);
        Span { start, end }
    }
}

/// The decimal digits of `n`, without leading zeros.
pub open spec fn decimal(n: nat) -> Seq<char>
    decreases n,
{
    let digit = ((48 + n % 10) as u8) as char;
    if n < 10 {
        seq![digit]
    } else {
        decimal(n / 10).push(digit)
    }
}

/// `start..end`, the text of a `u32` range.
pub open spec fn range_text(start: u32, end: u32) -> Seq<char> {
    decimal(start as nat) + seq!['.', '.'] + decimal(end as nat)
}

/// Relies on `format!` with the `Display` of `u32`, which writes an integer
/// in decimal without leading zeros.
#[verifier::external_body]
fn format_range(start: u32, end: u32) -> (r: String)
    ensures
        r@ == range_text(start, end),
{
    format!("{}..{}", start, end)
}

impl Span {
    /// The span as text, written as the range `start..end`.
    pub fn to_text(self) -> (r: String)
        ensures
            r@ == range_text(self.start, self.end),
    {
        format_range(self.start, self.end)
    }
}

/// Elements that know the part of the source text they stand for.
pub trait IntoSpan {
    /// The span of the element.
    spec fn spec_span(&self) -> Span;

    fn span(&self) -> (r: Span)
        ensures
            r == self.spec_span(),
    ;
}

impl IntoSpan for TextRange {
    open spec fn spec_span(&self) -> Span {
        let (start, end) = text_range_bounds_of(*self);
        Span { start, end }
    }

    fn span(&self) -> (r: Span) {
        Span::from_text_range(self)
    }
}

impl From<Span> for Range<u32> {
    fn from(this: Span) -> (r: Range<u32>) {
        Range { start: this.start, end: this.end }
    }
}

impl vstd::std_specs::convert::FromSpecImpl<Span> for Range<u32> {
    open spec fn obeys_from_spec() -> bool {
        true
    }

    open spec fn from_spec(this: Span) -> Range<u32> {
        Range { start: this.start, end: this.end }
    }
}

impl From<Range<u32>> for Span {
    fn from(that: Range<u32>) -> (r: Span) {
        Span { start: that.start, end: that.end }
    }
}

impl vstd::std_specs::convert::FromSpecImpl<Range<u32>> for Span {
    open spec fn obeys_from_spec() -> bool {
        true
    }

    open spec fn from_spec(that: Range<u32>) -> Span {
        Span { start: that.start, end: that.end }
    }
}

impl From<Span> for Range<usize> {
    fn from(this: Span) -> (r: Range<usize>) {
        this.as_std()
    }
}

impl vstd::std_specs::convert::FromSpecImpl<Span> for Range<usize> {
    open spec fn obeys_from_spec() -> bool {
        true
    }

    open spec fn from_spec(this: Span) -> Range<usize> {
        Range { start: this.start as usize, end: this.end as usize }
    }
}

/// A valid span taken to a text range and back is the span it was.
pub proof fn lemma_text_range_round_trip(s: Span, range: TextRange)
    requires
        s.valid(),
        text_range_bounds_of(range) == (s.start, s.end),
    ensures
        range.spec_span() == s,
{
}

/// Covering a span with itself gives the span back, and a valid span
/// intersects itself in itself.
pub proof fn lemma_self_cover_intersect(s: Span)
    requires
        s.valid(),
    ensures
        s.hull(s) == s,
        s.overlap(s) == Some(s),
{
}

/// Covering is commutative, and the cover of two spans contains each of them.
pub proof fn lemma_cover_commutes_and_contains(a: Span, b: Span)
    ensures
        a.hull(b) == b.hull(a),
        a.hull(b).encloses(a),
        a.hull(b).encloses(b),
{
}

/// Valid spans that are apart, with a gap of at least one offset between
/// them, have no intersection.
pub proof fn lemma_apart_no_intersection(a: Span, b: Span)
    requires
        a.valid(),
        b.valid(),
        a.end < b.start || b.end < a.start,
    ensures
        a.overlap(b) is None,
{
}

/// Valid spans that share only a boundary intersect in the empty span there.
pub proof fn lemma_touching_intersection(a: Span, b: Span)
    requires
        a.valid(),
        b.valid(),
        a.end == b.start,
    ensures
        a.overlap(b) == Some(Span { start: a.end, end: a.end }),
        b.overlap(a) == Some(Span { start: a.end, end: a.end }),
{
}

/// A span taken to a `u32` range and back is the span it was. Taken to a
/// `usize` range, it gives bounds that fit in 32 bits and equal its own, so
/// `from_std` takes that range back to the span.
pub proof fn lemma_range_round_trip(s: Span)
    ensures
        <Span as vstd::std_specs::convert::FromSpec<Range<u32>>>::from_spec(
            <Range<u32> as vstd::std_specs::convert::FromSpec<Span>>::from_spec(s),
        ) == s,
        ({
            let r = <Range<usize> as vstd::std_specs::convert::FromSpec<Span>>::from_spec(s);
            r.start <= u32::MAX && r.end <= u32::MAX && r.start == s.start && r.end == s.end
        }),
{
}

} // verus!
