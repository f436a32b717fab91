use the_book::text::{decimal_text, is_space, parse_u8, prefix_before, trim};

#[test]
fn decimal_text_writes_digits() {
    assert_eq!(decimal_text(0), "0");
    assert_eq!(decimal_text(7), "7");
    assert_eq!(decimal_text(10), "10");
    assert_eq!(decimal_text(255), "255");
    assert_eq!(decimal_text(1_000_000), "1000000");
    assert_eq!(decimal_text(u64::MAX), "18446744073709551615");
}

#[test]
fn parse_u8_reads_digits_after_a_plus_or_none() {
    assert_eq!(parse_u8("0"), Some(0));
    assert_eq!(parse_u8("9"), Some(9));
    assert_eq!(parse_u8("+9"), Some(9));
    assert_eq!(parse_u8("255"), Some(255));
    assert_eq!(parse_u8("0000000000255"), Some(255));
    assert_eq!(parse_u8("+000"), Some(0));
}

#[test]
fn parse_u8_refuses_the_rest() {
    assert_eq!(parse_u8(""), None);
    assert_eq!(parse_u8("+"), None);
    assert_eq!(parse_u8("-1"), None);
    assert_eq!(parse_u8("256"), None);
    assert_eq!(parse_u8("260"), None);
    assert_eq!(parse_u8("999999999999999999999"), None);
    assert_eq!(parse_u8("25x"), None);
    assert_eq!(parse_u8("2560x"), None);
    assert_eq!(parse_u8(" 1"), None);
    assert_eq!(parse_u8("1 "), None);
    assert_eq!(parse_u8("1+"), None);
    assert_eq!(parse_u8("\u{661}"), None);
}

#[test]
fn parse_u8_agrees_with_the_standard_parser() {
    for n in 0..=300u32 {
        let text = n.to_string();
        assert_eq!(parse_u8(&text), text.parse::<u8>().ok());
        let signed = format!("+{}", n);
        assert_eq!(parse_u8(&signed), signed.parse::<u8>().ok());
    }
}

#[test]
fn prefix_before_stops_at_the_byte() {
    assert_eq!(prefix_before("In a galaxy far, far away", 0x2c), "In a galaxy far");
    assert_eq!(prefix_before("no comma", 0x2c), "no comma");
    assert_eq!(prefix_before(",", 0x2c), "");
    assert_eq!(prefix_before("", 0x2c), "");
    assert_eq!(prefix_before("\u{e9}t\u{e9}, hiver", 0x2c), "\u{e9}t\u{e9}");
}

#[test]
fn trim_takes_white_space_from_both_ends() {
    assert_eq!(trim("  42  \r\n"), "42");
    assert_eq!(trim("a b"), "a b");
    assert_eq!(trim(" a b\t"), "a b");
    assert_eq!(trim(""), "");
    assert_eq!(trim(" \n\t "), "");
    assert_eq!(trim("x"), "x");
    assert_eq!(trim("\u{3000}\u{e9}t\u{e9}\u{a0}"), "\u{e9}t\u{e9}");
}

#[test]
fn trim_agrees_with_the_standard_trim() {
    for code in 0..0x11000u32 {
        if let Some(c) = char::from_u32(code) {
            assert_eq!(is_space(c), c.is_whitespace());
            let text = format!("{c} x{c}y {c}");
            assert_eq!(trim(&text), text.trim());
        }
    }
}
