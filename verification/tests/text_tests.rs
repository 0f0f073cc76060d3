use photo_backend::text::{chars_of, decimal_text, parse_usize, replace_text};

#[test]
fn decimal_of_zero_and_extremes() {
    assert_eq!(decimal_text(0), "0");
    assert_eq!(decimal_text(7), "7");
    assert_eq!(decimal_text(10), "10");
    assert_eq!(decimal_text(300), "300");
    assert_eq!(decimal_text(9223372036854775807), "9223372036854775807");
    assert_eq!(decimal_text(u64::MAX), "18446744073709551615");
}

#[test]
fn decimal_agrees_with_format() {
    for n in [0u64, 1, 9, 11, 99, 100, 101, 12345, 1_000_000_007] {
        assert_eq!(decimal_text(n), format!("{}", n));
    }
}

#[test]
fn parse_accepts_numerals() {
    assert_eq!(parse_usize("300"), Some(300));
    assert_eq!(parse_usize("0"), Some(0));
    assert_eq!(parse_usize("007"), Some(7));
    assert_eq!(parse_usize("+5"), Some(5));
}

#[test]
fn parse_refuses_what_std_refuses() {
    for s in ["", "+", "-", "-5", "12a", " 1", "1 ", "1.5", "++1", "0x10"] {
        assert_eq!(parse_usize(s), None, "{:?}", s);
        assert_eq!(parse_usize(s), s.parse::<usize>().ok(), "{:?}", s);
    }
}

#[test]
fn parse_matches_std_at_the_bound() {
    let max = usize::MAX.to_string();
    assert_eq!(parse_usize(&max), Some(usize::MAX));
    let over = format!("{}0", max);
    assert_eq!(parse_usize(&over), None);
    assert_eq!(parse_usize("18446744073709551616"), "18446744073709551616".parse::<usize>().ok());
}

#[test]
fn parse_reads_back_decimal() {
    for n in [0usize, 5, 60, 300, 86400, 123456789] {
        assert_eq!(parse_usize(&decimal_text(n as u64)), Some(n));
    }
}

#[test]
fn replace_matches_std() {
    let cases = [
        ("a b c", " ", "_"),
        ("Bearer abc", "Bearer ", ""),
        ("BeBearer arer x", "Bearer ", ""),
        ("aaaa", "aa", "b"),
        ("", "x", "y"),
        ("héllo wörld", "ö", "oe"),
        ("no match here", "zz", "!"),
    ];
    for (s, from, to) in cases {
        assert_eq!(replace_text(s, from, to), s.replace(from, to), "{:?}", (s, from, to));
    }
}

#[test]
fn chars_in_order() {
    assert_eq!(chars_of("añb"), vec!['a', 'ñ', 'b']);
    assert_eq!(chars_of(""), Vec::<char>::new());
}
