use cardeal::text::{
    chars_of, contains_chars, decimal_chars, find_char, find_chars, int_chars, is_white_char,
    parse_i32_chars, parse_unsigned_chars, string_of, trim_chars, trim_start_chars,
    utf8_shorter_than, zero_pad_chars,
};

fn cs(s: &str) -> Vec<char> {
    s.chars().collect()
}

fn st(v: &Vec<char>) -> String {
    v.iter().collect()
}

#[test]
fn trim_removes_unicode_whitespace_at_both_ends() {
    assert_eq!(st(&trim_chars(&cs("  \t VOLVO \n\u{a0}"))), "VOLVO");
    assert_eq!(st(&trim_chars(&cs("\u{3000}a b\u{2009}"))), "a b");
    assert_eq!(st(&trim_chars(&cs("   "))), "");
    assert_eq!(st(&trim_chars(&cs(""))), "");
    assert_eq!(st(&trim_start_chars(&cs("  x  "))), "x  ");
}

#[test]
fn trim_matches_str_trim() {
    for s in ["", " a ", "\u{85}b\u{2028}", "\u{200b}c", "x\u{1680}", "  \u{205f}"] {
        assert_eq!(st(&trim_chars(&cs(s))), s.trim());
    }
}

#[test]
fn whitespace_is_the_unicode_set() {
    for c in ['\t', '\n', '\u{b}', '\u{c}', '\r', ' ', '\u{85}', '\u{a0}', '\u{1680}', '\u{2000}', '\u{200a}', '\u{2028}', '\u{2029}', '\u{202f}', '\u{205f}', '\u{3000}'] {
        assert!(is_white_char(c));
        assert!(c.is_whitespace());
    }
    for c in ['a', '\u{200b}', '\u{180e}', '-', '0'] {
        assert!(!is_white_char(c));
        assert_eq!(c.is_whitespace(), false);
    }
}

#[test]
fn find_gives_the_first_occurrence() {
    assert_eq!(find_chars(&cs("abcabc"), &cs("bc")), Some(1));
    assert_eq!(find_chars(&cs("abcabc"), &cs("cb")), None);
    assert_eq!(find_chars(&cs("abc"), &cs("")), Some(0));
    assert_eq!(find_chars(&cs("ab"), &cs("abc")), None);
    assert_eq!(find_char(&cs("Färg: röd"), ':'), Some(4));
    assert!(contains_chars(&cs("Inga uppgifter hittades"), &cs("uppgifter")));
    assert!(!contains_chars(&cs("Inga"), &cs("inga")));
}

#[test]
fn parse_i32_follows_from_str() {
    for s in ["0", "42", "-42", "+7", "-", "+", "", "1-2", "--1", "2147483647", "2147483648", "-2147483648", "-2147483649", "007", "99999999999999999999"] {
        assert_eq!(parse_i32_chars(&cs(s)), s.parse::<i32>().ok(), "input {:?}", s);
    }
}

#[test]
fn parse_unsigned_follows_from_str() {
    for s in ["0", "8080", "+8080", "-1", "", "65535", "65536", "18446744073709551615", "18446744073709551616", "7 "] {
        assert_eq!(parse_unsigned_chars(&cs(s), u16::MAX as u64), s.parse::<u16>().ok().map(|v| v as u64), "input {:?}", s);
        assert_eq!(parse_unsigned_chars(&cs(s), u64::MAX), s.parse::<u64>().ok(), "input {:?}", s);
    }
}

#[test]
fn decimal_text_of_numbers() {
    assert_eq!(st(&decimal_chars(0)), "0");
    assert_eq!(st(&decimal_chars(1234567890)), "1234567890");
    assert_eq!(st(&decimal_chars(u64::MAX)), u64::MAX.to_string());
    assert_eq!(st(&int_chars(-2012)), "-2012");
    assert_eq!(st(&int_chars(i64::MIN)), i64::MIN.to_string());
    assert_eq!(st(&zero_pad_chars(&cs("7"), 2)), "07");
    assert_eq!(st(&zero_pad_chars(&cs("123"), 2)), "123");
}

#[test]
fn utf8_length_counts_bytes() {
    let s = "Handelsbenämning 🚗";
    let n = s.len();
    assert!(!utf8_shorter_than(&cs(s), n));
    assert!(utf8_shorter_than(&cs(s), n + 1));
    assert!(!utf8_shorter_than(&cs(""), 0));
}

#[test]
fn characters_round_trip_through_strings() {
    let s = "Mätarställning: 12 345";
    assert_eq!(chars_of(s), cs(s));
    assert_eq!(string_of(&cs(s)), s);
}
