use rust_autoclicker::decimal::{chars_of, format_i64, parse_edit_int, parse_i32_chars};

fn parse(s: &str) -> Option<i32> {
    let v = chars_of(s);
    parse_i32_chars(&v, 0, v.len())
}

#[test]
fn formats_like_to_string() {
    assert_eq!(format_i64(0), "0");
    assert_eq!(format_i64(7), "7");
    assert_eq!(format_i64(-123), "-123");
    assert_eq!(format_i64(1_000_000), "1000000");
    assert_eq!(format_i64(i64::MAX), i64::MAX.to_string());
    assert_eq!(format_i64(i64::MIN), i64::MIN.to_string());
}

#[test]
fn parses_like_str_parse() {
    assert_eq!(parse("42"), Some(42));
    assert_eq!(parse("+42"), Some(42));
    assert_eq!(parse("-42"), Some(-42));
    assert_eq!(parse("007"), Some(7));
    assert_eq!(parse("2147483647"), Some(i32::MAX));
    assert_eq!(parse("-2147483648"), Some(i32::MIN));
}

#[test]
fn rejects_what_str_parse_rejects() {
    for s in ["", "-", "+", "2147483648", "-2147483649", " 1", "1 ", "1.5", "--1", "+-1", "12a", "99999999999999999999"] {
        assert_eq!(parse(s), None, "{:?}", s);
        assert_eq!(parse(s), s.parse::<i32>().ok(), "{:?}", s);
    }
}

#[test]
fn parses_a_range_of_a_buffer() {
    let v = chars_of("key=123\n");
    assert_eq!(parse_i32_chars(&v, 4, 7), Some(123));
    assert_eq!(parse_i32_chars(&v, 4, 4), None);
}

#[test]
fn decimal_text_reads_back() {
    for v in [0, 1, -1, 9, 10, -10, 12345, i32::MAX, i32::MIN] {
        assert_eq!(parse(&format_i64(v as i64)), Some(v));
    }
}

#[test]
fn edit_box_numbers_are_trimmed() {
    assert_eq!(parse_edit_int("  42 "), 42);
    assert_eq!(parse_edit_int("\t-7\r\n"), -7);
    assert_eq!(parse_edit_int("\u{3000}12\u{a0}"), 12);
}

#[test]
fn edit_box_without_a_number_reads_zero() {
    assert_eq!(parse_edit_int(""), 0);
    assert_eq!(parse_edit_int("   "), 0);
    assert_eq!(parse_edit_int("1 2"), 0);
    assert_eq!(parse_edit_int("abc"), 0);
    assert_eq!(parse_edit_int("5.0"), 0);
    assert_eq!(parse_edit_int("3000000000"), 0);
}

#[test]
fn chars_of_keeps_every_character() {
    assert_eq!(chars_of("aé€😀"), vec!['a', 'é', '€', '😀']);
}
