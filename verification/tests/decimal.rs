use grocery::decimal::{i32_text, parse_i32, push_i32_text};

#[test]
fn formats_and_parses_extremes() {
    assert_eq!(i32_text(i32::MIN), "-2147483648");
    assert_eq!(i32_text(i32::MAX), "2147483647");
    assert_eq!(parse_i32("-2147483648"), Some(i32::MIN));
    assert_eq!(parse_i32("2147483647"), Some(i32::MAX));
}

#[test]
fn formats_like_to_string() {
    for n in [0, 1, 9, 10, 42, -7, 100, -100, 123456789, -98765] {
        assert_eq!(i32_text(n), n.to_string());
    }
}

#[test]
fn push_appends_to_existing_text() {
    let mut s = String::from("id=");
    push_i32_text(&mut s, -15);
    assert_eq!(s, "id=-15");
}

#[test]
fn parses_signs_and_leading_zeros() {
    assert_eq!(parse_i32("+5"), Some(5));
    assert_eq!(parse_i32("-0"), Some(0));
    assert_eq!(parse_i32("007"), Some(7));
}

#[test]
fn refuses_what_std_refuses() {
    for text in ["", "+", "-", "12a", " 1", "1 ", "2147483648", "-2147483649", "+-1", "--1", "1.0", "99999999999"] {
        assert_eq!(parse_i32(text), None, "{text}");
        assert!(text.parse::<i32>().is_err());
    }
}

#[test]
fn agrees_with_std_on_many_texts() {
    for text in ["0", "12", "-12", "+12", "x", "٣", "1_000", "2147483647", "-2147483648", "0000000000000000001"] {
        assert_eq!(parse_i32(text), text.parse::<i32>().ok(), "{text}");
    }
}

#[test]
fn round_trip_of_text() {
    let mut n: i64 = i32::MIN as i64;
    while n <= i32::MAX as i64 {
        let m = n as i32;
        assert_eq!(parse_i32(&i32_text(m)), Some(m));
        n += 65_537;
    }
}
