use booru_wallpaper::text::{
    chars_of, equals_ignore_ascii_case, parse_u32, push_decimal, split_on_spaces, starts_with,
    str_equal, trimmed_chars, IntErrorKind,
};

fn s(cs: Vec<char>) -> String {
    cs.into_iter().collect()
}

#[test]
fn split_on_spaces_keeps_empty_pieces() {
    assert_eq!(split_on_spaces("wallpaper landscape"), vec!["wallpaper", "landscape"]);
    assert_eq!(split_on_spaces("a  b"), vec!["a", "", "b"]);
    assert_eq!(split_on_spaces(""), vec![""]);
    assert_eq!(split_on_spaces(" x "), vec!["", "x", ""]);
}

#[test]
fn split_then_join_gives_back_the_text() {
    for text in ["wallpaper landscape", "a  b", "", " lead", "trail "] {
        assert_eq!(split_on_spaces(text).join(" "), text);
    }
}

#[test]
fn split_pieces_hold_no_space() {
    for piece in split_on_spaces("one two  three ") {
        assert!(!piece.contains(' '));
    }
}

#[test]
fn parse_u32_matches_std() {
    for text in ["0", "1920", "+7", "4294967295", "4294967296", "", "+", "-", "-1", "12a", "99999999999x", " 1", "007"] {
        let expected = text.parse::<u32>();
        let got = parse_u32(text);
        match (expected, got) {
            (Ok(a), Ok(b)) => assert_eq!(a, b, "{text}"),
            (Err(e), Err(k)) => {
                let kind = match k {
                    IntErrorKind::Empty => std::num::IntErrorKind::Empty,
                    IntErrorKind::InvalidDigit => std::num::IntErrorKind::InvalidDigit,
                    IntErrorKind::PosOverflow => std::num::IntErrorKind::PosOverflow,
                };
                assert_eq!(e.kind(), &kind, "{text}");
            }
            (a, b) => panic!("{text}: {a:?} vs {b:?}"),
        }
    }
}

#[test]
fn decimal_round_trips_through_parse() {
    for n in [0u32, 9, 10, 1280, 65535, u32::MAX] {
        let mut out = String::new();
        push_decimal(&mut out, n as u128);
        assert_eq!(out, n.to_string());
        assert_eq!(parse_u32(&out), Ok(n));
    }
}

#[test]
fn decimal_of_large_numbers() {
    let mut out = String::from("t=");
    push_decimal(&mut out, u128::MAX);
    assert_eq!(out, format!("t={}", u128::MAX));
}

#[test]
fn trim_removes_unicode_white_space() {
    assert_eq!(s(trimmed_chars("  1920x1080\n")), "1920x1080");
    assert_eq!(s(trimmed_chars("\u{3000}a b\u{85}")), "a b");
    assert_eq!(s(trimmed_chars(" \t ")), "");
    let text = "\u{2002}mixed\u{a0}";
    assert_eq!(s(trimmed_chars(text)), text.trim());
}

#[test]
fn string_comparisons() {
    assert!(starts_with("image/png", "image/"));
    assert!(!starts_with("imag", "image/"));
    assert!(str_equal("video/mp4", "video/mp4"));
    assert!(!str_equal("video/mp4", "video/webm"));
    assert!(equals_ignore_ascii_case("NoNe", "none"));
    assert!(!equals_ignore_ascii_case("nones", "none"));
    assert_eq!(chars_of("ab"), vec!['a', 'b']);
}
