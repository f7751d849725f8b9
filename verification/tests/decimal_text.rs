use swipe_server::decimal::{i64_to_text, parse_i64};

#[test]
fn parse_matches_std_on_samples() {
    let samples = [
        "0", "7", "-0", "+0", "+12", "-12", "0042", "", "-", "+", "+-1", "--1", " 1", "1 ", "1_000",
        "12a", "9223372036854775807", "9223372036854775808", "-9223372036854775808",
        "-9223372036854775809", "99999999999999999999999", "٣", "1.5", "-007",
    ];
    for s in samples.iter() {
        assert_eq!(parse_i64(s), s.parse::<i64>().ok(), "input {:?}", s);
    }
}

#[test]
fn parse_bounds() {
    assert_eq!(parse_i64("9223372036854775807"), Some(i64::MAX));
    assert_eq!(parse_i64("-9223372036854775808"), Some(i64::MIN));
    assert_eq!(parse_i64("9223372036854775808"), None);
}

#[test]
fn text_matches_display() {
    let samples = [0i64, 1, -1, 9, 10, -10, 1234567890, i64::MAX, i64::MIN, -9, 100];
    for v in samples.iter() {
        assert_eq!(i64_to_text(*v), format!("{}", v));
    }
}

#[test]
fn text_then_parse_round_trips() {
    let samples = [0i64, 42, -42, 1_600_000_000, i64::MAX, i64::MIN];
    for v in samples.iter() {
        assert_eq!(parse_i64(&i64_to_text(*v)), Some(*v));
    }
}
