//! Numerals, white space, searching and joining.

use slick::text::{
    chars_of, find_char, is_whitespace, join, parse_u64, rfind_char, string_of, to_decimal,
    to_lower_hex, trim_in,
};

#[test]
fn test_decimal_numerals() {
    assert_eq!(to_decimal(0), "0");
    assert_eq!(to_decimal(7), "7");
    assert_eq!(to_decimal(10), "10");
    assert_eq!(to_decimal(1_700_000_000), "1700000000");
    assert_eq!(to_decimal(u64::MAX), "18446744073709551615");
    for n in [1u64, 9, 99, 100, 101, 12345, 4_294_967_296] {
        assert_eq!(to_decimal(n), n.to_string());
    }
}

#[test]
fn test_hexadecimal_numerals() {
    assert_eq!(to_lower_hex(0), "0");
    assert_eq!(to_lower_hex(9), "9");
    assert_eq!(to_lower_hex(10), "a");
    assert_eq!(to_lower_hex(15), "f");
    assert_eq!(to_lower_hex(16), "10");
    assert_eq!(to_lower_hex(255), "ff");
    assert_eq!(to_lower_hex(0xdead_beef), "deadbeef");
    assert_eq!(to_lower_hex(u64::MAX), "ffffffffffffffff");
    for n in [1u64, 4096, 0x1234_5678_9abc_def0] {
        assert_eq!(to_lower_hex(n), format!("{:x}", n));
    }
}

#[test]
fn test_parse_accepts_what_the_standard_parser_accepts() {
    let texts = [
        "", "0", "7", "007", "+7", "+", "-7", "++7", "+-7", "7+", " 7", "7 ", "1_000", "12a",
        "0x10", "18446744073709551615", "18446744073709551616", "99999999999999999999",
        "+18446744073709551615", "000000000000000000000018446744073709551615", "\u{663}",
        "1.0", "1e3",
    ];
    for text in texts {
        assert_eq!(parse_u64(text), text.parse::<u64>().ok(), "{:?}", text);
    }
}

#[test]
fn test_parse_reads_back_every_numeral() {
    for n in [0u64, 1, 9, 10, 299, 300, 65535, 1_700_000_000, u64::MAX - 1, u64::MAX] {
        assert_eq!(parse_u64(&to_decimal(n)), Some(n));
    }
}

#[test]
fn test_white_space_is_that_of_unicode() {
    let mut code = 0u32;
    while code <= 0x10ffff {
        if let Some(c) = char::from_u32(code) {
            assert_eq!(is_whitespace(c), c.is_whitespace(), "U+{:04X}", code);
        }
        code += 1;
    }
}

#[test]
fn test_trim_bounds() {
    let cases = ["", " ", "1", " 1", "1\n", "  a b \t", "\u{a0}x\u{2003}", "\r\n", "a  "];
    for text in cases {
        let chars = chars_of(text);
        let (from, to) = trim_in(&chars, 0, chars.len());
        assert_eq!(string_of(&chars, from, to), text.trim(), "{:?}", text);
    }
    let chars = chars_of("ab  cd  ef");
    assert_eq!(trim_in(&chars, 2, 8), (4, 6));
    assert_eq!(trim_in(&chars, 2, 4), (4, 4));
}

#[test]
fn test_chars_and_back() {
    let text = "a\u{e9}\u{21e1}\u{1f512}z";
    let chars = chars_of(text);
    assert_eq!(chars, vec!['a', '\u{e9}', '\u{21e1}', '\u{1f512}', 'z']);
    assert_eq!(string_of(&chars, 0, chars.len()), text);
    assert_eq!(string_of(&chars, 1, 3), "\u{e9}\u{21e1}");
    assert_eq!(string_of(&chars, 2, 2), "");
}

#[test]
fn test_find_first_and_last() {
    let chars = chars_of("/home/user/venv-3.12");
    assert_eq!(find_char(&chars, '/'), Some(0));
    assert_eq!(rfind_char(&chars, '/'), Some(10));
    assert_eq!(find_char(&chars, '-'), Some(15));
    assert_eq!(find_char(&chars, ':'), None);
    assert_eq!(rfind_char(&chars, ':'), None);
    assert_eq!(find_char(&chars_of(""), '/'), None);
    assert_eq!(rfind_char(&chars_of(""), '/'), None);
}

#[test]
fn test_join() {
    let none: Vec<String> = Vec::new();
    assert_eq!(join(&none, " "), "");
    assert_eq!(join(&vec!["a".to_string()], " "), "a");
    assert_eq!(join(&vec!["a".to_string(), "b".to_string()], " "), "a b");
    assert_eq!(join(&vec!["a".to_string(), String::new(), "c".to_string()], ", "), "a, , c");
}
