use muse::text::{chars_of, decimal_string, is_whitespace, parse_u64_in, str_contains, string_of, trim_bounds};

#[test]
fn decimal_strings_read_back() {
    for n in [0u64, 7, 10, 99, 100, 215, 1_000_000, u64::MAX] {
        let s = decimal_string(n);
        assert_eq!(s, n.to_string());
        let v = chars_of(&s);
        assert_eq!(parse_u64_in(&v, 0, v.len()), Some(n));
    }
}

#[test]
fn parse_u64_matches_str_parse() {
    for s in ["", "+", "+0", "12", "-3", "1+2", "18446744073709551615", "18446744073709551616", " 1"] {
        let v = chars_of(s);
        assert_eq!(parse_u64_in(&v, 0, v.len()), s.parse::<u64>().ok(), "{}", s);
    }
}

#[test]
fn whitespace_is_unicode_whitespace() {
    for c in [' ', '\t', '\n', '\r', '\u{b}', '\u{c}', '\u{85}', '\u{a0}', '\u{2003}', '\u{3000}'] {
        assert!(is_whitespace(c));
        assert!(c.is_whitespace());
    }
    for c in ['a', '_', '\u{200b}', '\u{feff}'] {
        assert!(!is_whitespace(c));
        assert!(!c.is_whitespace());
    }
}

#[test]
fn trim_bounds_matches_str_trim() {
    for s in ["", "   ", " a b ", "\u{3000}x\u{a0}", "x"] {
        let v = chars_of(s);
        let (a, b) = trim_bounds(&v, 0, v.len());
        assert_eq!(string_of(&v, a, b), s.trim());
    }
}

#[test]
fn contains_matches_str_contains() {
    for (s, p) in [("org.mpris.spotify", "spotify"), ("abc", ""), ("", ""), ("ab", "abc"), ("aab", "ab"), ("x", "y")] {
        assert_eq!(str_contains(s, p), s.contains(p));
    }
}
