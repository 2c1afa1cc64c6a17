use incubator::format_regex::{parse_regex, read_captures, read_number};
use incubator::format_spec::{parse_custom, try_parse_custom, Precision, Sign};

#[test]
fn parses_sign() {
    for (input, expected) in vec![
        ("", None),
        (">8.*", None),
        (">+8.*", Some(Sign::Plus)),
        ("-.1$x", Some(Sign::Minus)),
        ("a^#043.8?", None),
    ] {
        let (sign, ..) = parse_regex(input).unwrap();
        assert_eq!(sign, expected);
    }
}

#[test]
fn parses_width() {
    for (input, expected) in vec![
        ("", None),
        (">8.*", Some(8)),
        (">+8.*", Some(8)),
        ("-.1$x", None),
        ("a^#043.8?", Some(43)),
    ] {
        let (_, width, _) = parse_regex(input).unwrap();
        assert_eq!(width, expected);
    }
}

#[test]
fn parses_precision() {
    for (input, expected) in vec![
        ("", None),
        (">8.*", Some(Precision::Asterisk)),
        (">+8.*", Some(Precision::Asterisk)),
        ("-.1$x", Some(Precision::Argument(1))),
        ("a^#043.8?", Some(Precision::Integer(8))),
    ] {
        let (_, _, precision) = parse_regex(input).unwrap();
        assert_eq!(precision, expected);
    }
}

#[test]
fn parses_sign_custom() {
    for (input, expected) in vec![
        ("", None),
        (">8.*", None),
        (">+8.*", Some(Sign::Plus)),
        ("-.1$x", Some(Sign::Minus)),
        ("a^#043.8?", None),
    ] {
        let (sign, ..) = parse_custom(input);
        assert_eq!(sign, expected);
    }
}

#[test]
fn parses_width_custom() {
    for (input, expected) in vec![
        ("", None),
        (">8.*", Some(8)),
        (">+8.*", Some(8)),
        ("-.1$x", None),
        ("a^#043.8?", Some(43)),
    ] {
        let (_, width, _) = parse_custom(input);
        assert_eq!(width, expected);
    }
}

#[test]
fn parses_precision_custom() {
    for (input, expected) in vec![
        ("", None),
        (">8.*", Some(Precision::Asterisk)),
        (">+8.*", Some(Precision::Asterisk)),
        ("-.1$x", Some(Precision::Argument(1))),
        ("a^#043.8?", Some(Precision::Integer(8))),
    ] {
        let (_, _, precision) = parse_custom(input);
        assert_eq!(precision, expected);
    }
}

#[test]
fn custom_reading_refuses_what_cannot_be_read() {
    assert_eq!(try_parse_custom(".x"), None);
    assert_eq!(try_parse_custom("8."), None);
    assert_eq!(try_parse_custom("99999999999999999999999999"), None);
    assert_eq!(try_parse_custom(".99999999999999999999999999"), None);
    assert_eq!(
        try_parse_custom("<^-#012.34$"),
        Some((None, None, None))
    );
    assert_eq!(
        try_parse_custom("x<-#012.34$"),
        Some((Some(Sign::Minus), Some(12), Some(Precision::Argument(34))))
    );
    assert_eq!(try_parse_custom("00"), Some((None, Some(0), None)));
    assert_eq!(try_parse_custom("+0"), Some((Some(Sign::Plus), None, None)));
}

#[test]
fn regex_groups_are_the_crates() {
    // The fill takes a character before the alignment mark where one fits,
    // so the two readings part on a text such as this one.
    assert_eq!(
        parse_regex("<^-#012.34$"),
        Some((Some(Sign::Minus), Some(12), Some(Precision::Argument(34))))
    );
    assert_eq!(parse_regex("zzz"), Some((None, None, None)));
    assert_eq!(parse_regex("99999999999999999999999999"), None);
}

#[test]
fn captures_are_read_by_their_numbers() {
    let g = |v: Vec<Option<&str>>| -> Vec<Option<String>> {
        v.into_iter().map(|o| o.map(|s| s.to_string())).collect()
    };
    let all = g(vec![
        Some("+8.2$"), None, None, Some("+"), None, Some("8"), Some(".2$"), Some("2$"),
        Some("2"), None,
    ]);
    assert_eq!(
        read_captures(&all),
        Some((Some(Sign::Plus), Some(8), Some(Precision::Argument(2))))
    );
    let star = g(vec![
        Some("-.*"), None, None, Some("-"), None, None, Some(".*"), Some("*"), None, None,
    ]);
    assert_eq!(
        read_captures(&star),
        Some((Some(Sign::Minus), None, Some(Precision::Asterisk)))
    );
    let short = g(vec![Some("x")]);
    assert_eq!(read_captures(&short), Some((None, None, None)));
    let no_number = g(vec![
        Some(""), None, None, None, None, None, Some(".2"), Some("2"), None, None,
    ]);
    assert_eq!(read_captures(&no_number), None);
    let bad_width = g(vec![Some(""), None, None, None, None, Some("8a")]);
    assert_eq!(read_captures(&bad_width), None);
    assert_eq!(read_number("0012"), Some(12));
    assert_eq!(read_number(""), None);
    assert_eq!(read_number("+1"), None);
}
