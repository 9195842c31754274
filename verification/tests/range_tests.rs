use me_tube::media::{compute_window, parse_range, parse_range_header, Range, RangeError};

#[test]
fn plain_start_end_range() {
    let r = parse_range("bytes=0-99").expect("should parse");
    assert_eq!(r.start, Some(0));
    assert_eq!(r.end, Some(99));
}

#[test]
fn open_ended_start_range() {
    let r = parse_range("bytes=100-").expect("should parse");
    assert_eq!(r.start, Some(100));
    assert_eq!(r.end, None);
}

#[test]
fn suffix_form_is_a_format_error() {
    assert!(matches!(parse_range("bytes=-100"), Err(RangeError::Format)));
}

#[test]
fn wrong_unit_is_a_format_error() {
    assert!(matches!(parse_range("items=0-1"), Err(RangeError::Format)));
}

#[test]
fn bad_start_is_a_start_error() {
    assert!(matches!(parse_range("bytes=abc-1"), Err(RangeError::Start)));
}

#[test]
fn bad_end_is_an_end_error() {
    assert!(matches!(parse_range("bytes=1-xyz"), Err(RangeError::End)));
}

#[test]
fn shape_errors() {
    assert!(matches!(parse_range("bytes"), Err(RangeError::Format)));
    assert!(matches!(parse_range("bytes=1-2-3"), Err(RangeError::Format)));
    assert!(matches!(parse_range("a=b=c"), Err(RangeError::Format)));
    assert!(matches!(parse_range(""), Err(RangeError::Format)));
}

#[test]
fn bare_dash_means_whole_file() {
    let r = parse_range("bytes=-").expect("should parse");
    assert_eq!(r.start, None);
    assert_eq!(r.end, None);
}

#[test]
fn overflowing_number_is_a_bound_error() {
    assert!(matches!(
        parse_range("bytes=18446744073709551616-"),
        Err(RangeError::Start)
    ));
    // The largest representable bound still parses.
    let r = parse_range("bytes=18446744073709551615-").expect("should parse");
    assert_eq!(r.start, Some(u64::MAX));
}

#[test]
fn absent_header_is_no_range() {
    let r = parse_range_header(None).expect("absent header is fine");
    assert!(r.is_none());
}

#[test]
fn present_header_goes_through_the_parser() {
    let r = parse_range_header(Some("bytes=5-9")).expect("should parse");
    let rg = r.expect("a range was given");
    assert_eq!(rg.start, Some(5));
    assert_eq!(rg.end, Some(9));
}

#[test]
fn window_for_whole_file() {
    let w = compute_window(&None, 1000).expect("whole file");
    assert_eq!(w.offset, 0);
    assert_eq!(w.end, 1000);
}

#[test]
fn window_for_inclusive_range() {
    let w = compute_window(&Some(Range { start: Some(500), end: Some(599) }), 1000)
        .expect("in bounds");
    assert_eq!(w.offset, 500);
    assert_eq!(w.end, 600);
}

#[test]
fn window_start_at_length_is_rejected() {
    let r = compute_window(&Some(Range { start: Some(1000), end: None }), 1000);
    assert!(matches!(r, Err(RangeError::Start)));
}

#[test]
fn window_end_at_length_is_rejected() {
    let r = compute_window(&Some(Range { start: None, end: Some(1000) }), 1000);
    assert!(matches!(r, Err(RangeError::End)));
}

#[test]
fn window_end_before_start_is_rejected() {
    let r = compute_window(&Some(Range { start: Some(10), end: Some(5) }), 1000);
    assert!(matches!(r, Err(RangeError::End)));
}
