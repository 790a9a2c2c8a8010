use rust_honey_analyzer::capture_filter::{
    filter_from_parsed, parse_capture_filter, CaptureFilter, FilterParseError,
};

#[test]
fn parses_start_end_as_enabled() {
    assert_eq!(
        parse_capture_filter("0x1000-0x2000"),
        Ok(CaptureFilter { enabled: true, start: 0x1000, stop: 0x2000 })
    );
}

#[test]
fn parses_false_prefix_as_disabled() {
    assert_eq!(
        parse_capture_filter("false-0x1000-0x2000"),
        Ok(CaptureFilter { enabled: false, start: 0x1000, stop: 0x2000 })
    );
}

#[test]
fn other_prefix_enables() {
    assert_eq!(
        parse_capture_filter("true-4096-8192"),
        Ok(CaptureFilter { enabled: true, start: 4096, stop: 8192 })
    );
    assert_eq!(
        parse_capture_filter("False-0b101-0o17"),
        Ok(CaptureFilter { enabled: true, start: 5, stop: 15 })
    );
}

#[test]
fn rejects_four_fields() {
    assert_eq!(parse_capture_filter("1-2-3-4"), Err(FilterParseError::FieldCount(4)));
}

#[test]
fn rejects_one_field() {
    assert_eq!(parse_capture_filter("0x1000"), Err(FilterParseError::FieldCount(1)));
}

#[test]
fn rejects_non_numeric() {
    assert_eq!(parse_capture_filter("abc-def"), Err(FilterParseError::BadStart));
    assert_eq!(parse_capture_filter("12-def"), Err(FilterParseError::BadStop));
    assert_eq!(parse_capture_filter("-12"), Err(FilterParseError::BadStart));
}

#[test]
fn builds_filter_from_parsed_addresses() {
    assert_eq!(
        filter_from_parsed(false, Some(1), Some(2)),
        Ok(CaptureFilter { enabled: false, start: 1, stop: 2 })
    );
    assert_eq!(filter_from_parsed(true, None, Some(2)), Err(FilterParseError::BadStart));
    assert_eq!(filter_from_parsed(true, Some(1), None), Err(FilterParseError::BadStop));
    assert_eq!(filter_from_parsed(true, None, None), Err(FilterParseError::BadStart));
}
