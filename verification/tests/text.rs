use lsforms::text::{first_line_of, parse_usize, replace, IntErrorKind};

#[test]
fn parse_usize_accepts_decimal() {
    assert_eq!(parse_usize("0"), Ok(0));
    assert_eq!(parse_usize("42"), Ok(42));
    assert_eq!(parse_usize("+7"), Ok(7));
    assert_eq!(parse_usize("007"), Ok(7));
    assert_eq!(parse_usize("18446744073709551615"), Ok(usize::MAX));
}

#[test]
fn parse_usize_errors_like_std() {
    for s in ["", "+", "-", "-1", "1a", " 1", "1 ", "١", "18446744073709551616", "99999999999999999999x", "+-1"] {
        let ours = parse_usize(s);
        let std_result = s.parse::<usize>();
        match (ours, std_result) {
            (Ok(a), Ok(b)) => assert_eq!(a, b),
            (Err(e), Err(f)) => assert_eq!(e.description(), f.to_string()),
            (a, b) => panic!("{s:?}: {a:?} vs {b:?}"),
        }
    }
    assert_eq!(parse_usize(""), Err(IntErrorKind::Empty));
    assert_eq!(parse_usize("-"), Err(IntErrorKind::InvalidDigit));
    assert_eq!(parse_usize("99999999999999999999x"), Err(IntErrorKind::PosOverflow));
}

#[test]
fn replace_matches_std() {
    let cases = [
        ("aaaa", "aa", "b"),
        ("Hello {{HOST}}, {{HOST}}!", "{{HOST}}", "example.org"),
        ("abc", "", "x"),
        ("abc", "", ""),
        ("", "x", "y"),
        ("abcabc", "bc", ""),
        ("ééé", "é", "e"),
    ];
    for (s, p, r) in cases {
        assert_eq!(replace(s, p, r), s.replace(p, r));
    }
}

#[test]
fn first_line_like_lines() {
    for s in ["", "one", "one\ntwo", "one\r\ntwo", "\nrest", "a\r", "a\rb\nc", "\r\n"] {
        assert_eq!(first_line_of(s), s.lines().next().map(|l| l.to_string()));
    }
}
