use rust_webserver::text::{lowercase_ascii, parse_i32, second_piece_trimmed, trim_str, u32_to_decimal, find_first};

#[test]
fn trim_drops_surrounding_whitespace() {
    assert_eq!(trim_str("  a b \t\n"), "a b");
    assert_eq!(trim_str("\u{3000}x\u{A0}"), "x");
    assert_eq!(trim_str("   "), "");
    assert_eq!(trim_str(""), "");
    assert_eq!(trim_str("abc"), "abc");
}

#[test]
fn trim_matches_std() {
    for s in ["\t\r\n x y \u{2028}", "\u{85}q", "no-space", " \u{200A} "] {
        assert_eq!(trim_str(s), s.trim());
    }
}

#[test]
fn trimmed_text_has_no_edge_whitespace() {
    let t = trim_str(" \u{2003} token \u{205F} ");
    assert!(!t.starts_with(char::is_whitespace));
    assert!(!t.ends_with(char::is_whitespace));
}

#[test]
fn second_piece_is_between_first_two_occurrences() {
    assert_eq!(second_piece_trimmed("Bearer abc", "Bearer"), "abc");
    assert_eq!(second_piece_trimmed("x Bearer  t1 Bearer t2", "Bearer"), "t1");
    assert_eq!(second_piece_trimmed("Bearer", "Bearer"), "");
    assert_eq!(second_piece_trimmed("BearerBearer", "Bearer"), "");
}

#[test]
fn second_piece_matches_std_split() {
    for s in ["aBearerb", "  Bearer   eyJ.x.y  ", "Bearer a Bearer b Bearer c"] {
        let expected = s.split("Bearer").collect::<Vec<&str>>()[1].trim();
        assert_eq!(second_piece_trimmed(s, "Bearer"), expected);
    }
}

#[test]
fn find_first_gives_leftmost_position() {
    assert_eq!(find_first("abcabc", "bc"), Some(1));
    assert_eq!(find_first("abc", "x"), None);
    assert_eq!(find_first("ab", "abc"), None);
}

#[test]
fn decimal_notation() {
    assert_eq!(u32_to_decimal(0), "0");
    assert_eq!(u32_to_decimal(7), "7");
    assert_eq!(u32_to_decimal(4242), "4242");
    assert_eq!(u32_to_decimal(u32::MAX), "4294967295");
}

#[test]
fn parse_i32_accepts_what_std_accepts() {
    assert_eq!(parse_i32("42"), Some(42));
    assert_eq!(parse_i32("-12"), Some(-12));
    assert_eq!(parse_i32("+7"), Some(7));
    assert_eq!(parse_i32("0007"), Some(7));
    assert_eq!(parse_i32("2147483647"), Some(i32::MAX));
    assert_eq!(parse_i32("-2147483648"), Some(i32::MIN));
}

#[test]
fn parse_i32_refuses_what_std_refuses() {
    assert_eq!(parse_i32(""), None);
    assert_eq!(parse_i32("+"), None);
    assert_eq!(parse_i32("-"), None);
    assert_eq!(parse_i32("2147483648"), None);
    assert_eq!(parse_i32("-2147483649"), None);
    assert_eq!(parse_i32("99999999999999999999"), None);
    assert_eq!(parse_i32("12a"), None);
    assert_eq!(parse_i32(" 1"), None);
    assert_eq!(parse_i32("١"), None);
}

#[test]
fn parse_i32_agrees_with_std() {
    for s in ["", "+", "-", "0", "-0", "+-1", "1_000", "2147483647", "2147483648", "-2147483648", "007", "x"] {
        assert_eq!(parse_i32(s), s.parse::<i32>().ok(), "{s}");
    }
}

#[test]
fn pid_round_trip() {
    for pid in [0u32, 1, 9, 10, 31337, 2147483647] {
        assert_eq!(parse_i32(&u32_to_decimal(pid)), Some(pid as i32));
    }
    assert_eq!(parse_i32(&u32_to_decimal(2147483648)), None);
}

#[test]
fn lowercase_ascii_letters() {
    assert_eq!(lowercase_ascii("AbC9zZ"), "abc9zz");
    assert_eq!(lowercase_ascii(""), "");
    assert_eq!(lowercase_ascii("É"), "É");
}
