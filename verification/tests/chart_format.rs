use hit_it::song::{parse_chart, Song};

#[test]
fn parses_lines_of_notes() {
    assert_eq!(parse_chart(b"100,0\n250,3"), Some(vec![(100, 0), (250, 3)]));
}

#[test]
fn empty_chart_has_no_notes() {
    assert_eq!(parse_chart(b""), Some(vec![]));
    assert_eq!(parse_chart(b"\n\n"), Some(vec![]));
}

#[test]
fn skips_empty_lines_and_trailing_newline() {
    assert_eq!(parse_chart(b"1,2\n\n3,0\n"), Some(vec![(1, 2), (3, 0)]));
}

#[test]
fn reads_negative_and_extreme_numbers() {
    assert_eq!(parse_chart(b"-5,-1"), Some(vec![(-5, -1)]));
    assert_eq!(parse_chart(b"2147483647,0"), Some(vec![(2147483647, 0)]));
    assert_eq!(parse_chart(b"-2147483648,0"), Some(vec![(-2147483648, 0)]));
    assert_eq!(parse_chart(b"0007,01"), Some(vec![(7, 1)]));
}

#[test]
fn refuses_numbers_outside_i32() {
    assert_eq!(parse_chart(b"2147483648,0"), None);
    assert_eq!(parse_chart(b"-2147483649,0"), None);
    assert_eq!(parse_chart(b"99999999999999999999,0"), None);
}

#[test]
fn refuses_malformed_lines() {
    assert_eq!(parse_chart(b"100"), None);
    assert_eq!(parse_chart(b"100,"), None);
    assert_eq!(parse_chart(b",1"), None);
    assert_eq!(parse_chart(b"1,2,3"), None);
    assert_eq!(parse_chart(b"1 ,2"), None);
    assert_eq!(parse_chart(b"-,2"), None);
    assert_eq!(parse_chart(b"1,2\r\n3,4"), None);
    assert_eq!(parse_chart(b"1,2\nx"), None);
}

#[test]
fn reload_replaces_or_keeps() {
    let mut s = Song::new();
    assert!(s.keys.is_empty());
    assert!(s.reload(b"10,1"));
    assert_eq!(s.keys, vec![(10, 1)]);
    assert!(!s.reload(b"oops"));
    assert_eq!(s.keys, vec![(10, 1)]);
}
