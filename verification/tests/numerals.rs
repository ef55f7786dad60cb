use aqi::text::{decimal_string, parse_u32};

#[test]
fn numerals_are_read() {
    assert_eq!(parse_u32("0"), Some(0));
    assert_eq!(parse_u32("7"), Some(7));
    assert_eq!(parse_u32("42"), Some(42));
    assert_eq!(parse_u32("500"), Some(500));
    assert_eq!(parse_u32("4294967295"), Some(4_294_967_295));
}

#[test]
fn a_leading_plus_and_leading_zeros_are_accepted() {
    assert_eq!(parse_u32("+5"), Some(5));
    assert_eq!(parse_u32("007"), Some(7));
    assert_eq!(parse_u32("+000"), Some(0));
    assert_eq!(parse_u32("00000000000000000000000042"), Some(42));
}

#[test]
fn what_is_no_numeral_is_refused() {
    assert_eq!(parse_u32(""), None);
    assert_eq!(parse_u32("-"), None);
    assert_eq!(parse_u32("+"), None);
    assert_eq!(parse_u32("-1"), None);
    assert_eq!(parse_u32("++1"), None);
    assert_eq!(parse_u32("1+"), None);
    assert_eq!(parse_u32(" 1"), None);
    assert_eq!(parse_u32("1 "), None);
    assert_eq!(parse_u32("12a"), None);
    assert_eq!(parse_u32("1_000"), None);
    assert_eq!(parse_u32("1.5"), None);
    assert_eq!(parse_u32("0x10"), None);
    assert_eq!(parse_u32("\u{ff11}\u{ff12}"), None);
    assert_eq!(parse_u32("\u{663}"), None);
}

#[test]
fn too_large_a_numeral_is_refused() {
    assert_eq!(parse_u32("4294967296"), None);
    assert_eq!(parse_u32("99999999999"), None);
    assert_eq!(parse_u32("18446744073709551616"), None);
    assert_eq!(parse_u32("340282366920938463463374607431768211456"), None);
    assert_eq!(parse_u32("4294967296x"), None);
}

#[test]
fn reading_agrees_with_the_standard_parser() {
    let samples = vec![
        "", "0", "1", "9", "10", "99", "100", "+1", "-1", "+", "-", "+-1", "001", "4294967295",
        "4294967296", "42949672950", " 7", "7 ", "7\n", "a", "1a", "a1", "١٢٣", "+0", "00",
        "123456789", "1234567890", "12345678901",
    ];
    for s in samples {
        assert_eq!(parse_u32(s), s.parse::<u32>().ok(), "input {:?}", s);
    }
}

#[test]
fn numbers_are_written() {
    assert_eq!(decimal_string(0), "0");
    assert_eq!(decimal_string(7), "7");
    assert_eq!(decimal_string(10), "10");
    assert_eq!(decimal_string(42), "42");
    assert_eq!(decimal_string(501), "501");
    assert_eq!(decimal_string(1_000_000), "1000000");
    assert_eq!(decimal_string(4_294_967_295), "4294967295");
}

#[test]
fn writing_then_reading_gives_the_number_back() {
    let samples: Vec<u32> = vec![0, 1, 9, 10, 11, 99, 100, 101, 500, 65_535, 65_536, u32::MAX];
    for n in samples {
        assert_eq!(decimal_string(n), n.to_string());
        assert_eq!(parse_u32(&decimal_string(n)), Some(n));
    }
}
