use std::ops::Range;

use cab_text::{IntoSpan, Span};
use cstree::text::{TextRange, TextSize};

fn span(start: u32, end: u32) -> Span {
    Span { start, end }
}

#[test]
fn at_covers_len_offsets() {
    let s = Span::at(10u32, 5u32);
    assert_eq!(s, span(10, 15));
    assert!(!s.is_empty());
    assert!(s.contains_offset(12u32));
    assert!(!s.contains_offset(15u32));
    assert!(s.contains_offset(10u32));
    assert!(!s.contains_offset(9u32));
    assert_eq!(s.len(), 5);
}

#[test]
fn empty_is_zero_width() {
    let s = Span::empty(7u32);
    assert_eq!(s, span(7, 7));
    assert!(s.is_empty());
    assert_eq!(s.len(), 0);
    assert!(!s.contains_offset(7u32));
}

#[test]
fn constructors() {
    assert_eq!(Span::new(3u32, 8u32), span(3, 8));
    assert_eq!(Span::at_end(20u32, 5u32), span(15, 20));
    assert_eq!(Span::up_to(9u32), span(0, 9));
    assert_eq!(Span::at(0u32, 0u32), span(0, 0));
    assert_eq!(Span::at_end(4u32, 4u32), span(0, 4));
    assert_eq!(Span::at(u32::MAX - 1, 1u32), span(u32::MAX - 1, u32::MAX));
}

#[test]
fn len_is_end_minus_start() {
    assert_eq!(span(4, 11).len(), 7);
    assert_eq!(Span::up_to(u32::MAX).len(), u32::MAX);
}

#[test]
fn intersect_overlapping() {
    assert_eq!(Span::new(0u32, 10u32).intersect(Span::new(5u32, 20u32)), Some(span(5, 10)));
    assert_eq!(Span::new(5u32, 20u32).intersect(Span::new(0u32, 10u32)), Some(span(5, 10)));
    assert_eq!(span(2, 30).intersect(span(4, 6)), Some(span(4, 6)));
}

#[test]
fn intersect_touching_is_empty() {
    assert_eq!(span(0, 5).intersect(span(5, 10)), Some(span(5, 5)));
    assert_eq!(span(5, 10).intersect(span(0, 5)), Some(span(5, 5)));
}

#[test]
fn intersect_apart_is_none() {
    assert_eq!(span(0, 5).intersect(span(6, 10)), None);
    assert_eq!(span(20, 25).intersect(span(0, 5)), None);
}

#[test]
fn intersect_self() {
    for s in [span(0, 0), span(3, 9), span(7, u32::MAX)] {
        assert_eq!(s.intersect(s), Some(s));
    }
}

#[test]
fn cover_apart() {
    assert_eq!(Span::new(0u32, 5u32).cover(Span::new(20u32, 25u32)), span(0, 25));
    assert_eq!(Span::new(20u32, 25u32).cover(Span::new(0u32, 5u32)), span(0, 25));
}

#[test]
fn cover_laws_on_values() {
    let pairs = [(span(0, 5), span(20, 25)), (span(3, 9), span(4, 6)), (span(1, 1), span(8, 12))];
    for (a, b) in pairs {
        let c = a.cover(b);
        assert_eq!(c, b.cover(a));
        assert!(c.contains(a));
        assert!(c.contains(b));
        assert_eq!(a.cover(a), a);
    }
    assert_eq!(span(3, 9).cover(span(4, 6)), span(3, 9));
}

#[test]
fn contains_is_inclusive() {
    let s = span(10, 20);
    assert!(s.contains(s));
    assert!(s.contains(span(10, 10)));
    assert!(s.contains(span(20, 20)));
    assert!(s.contains(span(12, 18)));
    assert!(!s.contains(span(9, 18)));
    assert!(!s.contains(span(12, 21)));
}

#[test]
fn u32_range_round_trip() {
    let s = span(4, 17);
    let r: Range<u32> = s.into();
    assert_eq!(r, 4..17);
    assert_eq!(Span::from(r), s);
    assert_eq!(Span::from(0u32..u32::MAX), span(0, u32::MAX));
}

#[test]
fn usize_range_round_trip() {
    let s = span(4, 17);
    let r: Range<usize> = s.into();
    assert_eq!(r, 4..17);
    assert_eq!(s.as_std(), 4..17);
    assert_eq!(Span::from_std(r), s);
    assert_eq!(Span::std_range(2u32, 8u32), 2usize..8usize);
    assert_eq!(Span::from_std(0..u32::MAX as usize), span(0, u32::MAX));
}

#[test]
fn text_range_round_trip() {
    let s = span(3, 9);
    let r = s.text_range();
    assert_eq!(r, TextRange::new(TextSize::from(3), TextSize::from(9)));
    assert_eq!(Span::from_text_range(&r), s);
    let t = TextRange::new(TextSize::from(11), TextSize::from(40));
    assert_eq!(t.span(), span(11, 40));
    assert_eq!(TextRange::empty(TextSize::from(6)).span(), span(6, 6));
}

#[test]
fn text_is_the_range() {
    assert_eq!(span(12, 15).to_text(), "12..15");
    assert_eq!(span(0, 0).to_text(), "0..0");
    assert_eq!(span(7, u32::MAX).to_text(), "7..4294967295");
}
