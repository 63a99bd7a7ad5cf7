use todo_app::decimal::{format_i32, parse_i32};
use todo_app::text::{is_white_space_char, trim};

#[test]
fn trim_removes_ascii_spaces_at_both_ends() {
    assert_eq!(trim("  buy milk \t\n"), "buy milk");
}

#[test]
fn trim_keeps_inner_spaces() {
    assert_eq!(trim("a  b"), "a  b");
}

#[test]
fn trim_of_blank_text_is_empty() {
    assert_eq!(trim(""), "");
    assert_eq!(trim(" \t\r\n "), "");
}

#[test]
fn trim_removes_unicode_white_space() {
    assert_eq!(trim("\u{3000}\u{a0}todo\u{2028}\u{85}"), "todo");
}

#[test]
fn trim_keeps_zero_width_space() {
    assert_eq!(trim("\u{200b}x"), "\u{200b}x");
}

#[test]
fn trim_agrees_with_std_on_samples() {
    let samples = [
        "", " ", "x", " x", "x ", " x y ", "\u{2000}\u{200a}a\u{202f}", "\u{1680}b\u{205f}",
        "\u{180e}c", "\u{feff}d\u{feff}", "\u{b}\u{c}e\u{1c}",
    ];
    for s in samples {
        assert_eq!(trim(s), s.trim(), "sample {:?}", s);
    }
}

#[test]
fn trim_twice_is_trim_once() {
    for s in ["  a ", "\u{3000}", "b", " c d\n"] {
        let once = trim(s);
        assert_eq!(trim(&once), once);
    }
}

#[test]
fn white_space_matches_std_for_every_char_below_0x3100() {
    for u in 0u32..0x3100 {
        if let Some(c) = char::from_u32(u) {
            assert_eq!(is_white_space_char(c), c.is_whitespace(), "char {:x}", u);
        }
    }
}

#[test]
fn format_writes_decimal_text() {
    assert_eq!(format_i32(0), "0");
    assert_eq!(format_i32(7), "7");
    assert_eq!(format_i32(42), "42");
    assert_eq!(format_i32(-45), "-45");
    assert_eq!(format_i32(1000), "1000");
    assert_eq!(format_i32(i32::MAX), "2147483647");
    assert_eq!(format_i32(i32::MIN), "-2147483648");
}

#[test]
fn format_agrees_with_std() {
    for n in [-1000000, -999, -10, -9, -1, 1, 9, 10, 99, 100, 65536, 123456789] {
        assert_eq!(format_i32(n), n.to_string());
    }
}

#[test]
fn parse_reads_signed_and_unsigned_digits() {
    assert_eq!(parse_i32("123"), Some(123));
    assert_eq!(parse_i32("+7"), Some(7));
    assert_eq!(parse_i32("-0"), Some(0));
    assert_eq!(parse_i32("007"), Some(7));
    assert_eq!(parse_i32("-45"), Some(-45));
}

#[test]
fn parse_rejects_empty_text_and_lone_signs() {
    assert_eq!(parse_i32(""), None);
    assert_eq!(parse_i32("-"), None);
    assert_eq!(parse_i32("+"), None);
}

#[test]
fn parse_rejects_other_characters() {
    assert_eq!(parse_i32("12a"), None);
    assert_eq!(parse_i32(" 1"), None);
    assert_eq!(parse_i32("1 "), None);
    assert_eq!(parse_i32("--1"), None);
    assert_eq!(parse_i32("+-1"), None);
    assert_eq!(parse_i32("\u{663}"), None);
    assert_eq!(parse_i32("1.0"), None);
}

#[test]
fn parse_checks_the_range_of_i32() {
    assert_eq!(parse_i32("2147483647"), Some(i32::MAX));
    assert_eq!(parse_i32("2147483648"), None);
    assert_eq!(parse_i32("-2147483648"), Some(i32::MIN));
    assert_eq!(parse_i32("-2147483649"), None);
    assert_eq!(parse_i32("99999999999999999999"), None);
    assert_eq!(parse_i32("00000000000000000000012"), Some(12));
}

#[test]
fn parse_agrees_with_std_on_samples() {
    let samples = [
        "", "0", "-", "+", "+0", "-1", "12", "x", "1x", "2147483647", "2147483648", "-2147483648",
        "-2147483649", "4294967296", "-99999999999", "+-", "٣",
    ];
    for s in samples {
        assert_eq!(parse_i32(s), s.parse::<i32>().ok(), "sample {:?}", s);
    }
}

#[test]
fn parse_reads_back_what_format_writes() {
    for n in [i32::MIN, -2147483647, -100, -1, 0, 1, 10, 4096, i32::MAX] {
        assert_eq!(parse_i32(&format_i32(n)), Some(n));
    }
}
