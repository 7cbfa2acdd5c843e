use hello_grpc_rust::text::{
    char_is_whitespace, chars_of, contains, first_quoted, indent, lines, parse_usize, split,
    starts_with, str_eq, string_of, trim, u64_to_string,
};

fn samples() -> Vec<&'static str> {
    vec![
        "",
        "0",
        "7",
        "+7",
        "+",
        "-1",
        "007",
        "12a",
        " 1",
        "1 ",
        "18446744073709551615",
        "18446744073709551616",
        "99999999999999999999999",
        "a,b,c",
        ",",
        ",,",
        "a,",
        ",a",
        "0,1,2",
        "line one\nline two",
        "line one\r\nline two\r\n",
        "tail\r",
        "\n",
        "\n\n",
        "\r\n",
        "a\rb\n",
        "  indented",
        "\t\ttabs  ",
        "\u{3000}wide\u{a0}",
        "\u{2003}em space",
        "say \"hello\" and \"bye\"",
        "one \" only",
        "\"\"",
        "こんにちは,안녕하세요",
    ]
}

fn to_strings(parts: Vec<Vec<char>>) -> Vec<String> {
    let mut out = Vec::new();
    for part in parts.iter() {
        out.push(string_of(part));
    }
    out
}

#[test]
fn chars_round_trip() {
    for s in samples() {
        let chars = chars_of(s);
        let expected: Vec<char> = s.chars().collect();
        assert_eq!(chars, expected);
        assert_eq!(string_of(&chars), s);
    }
}

#[test]
fn str_eq_agrees_with_equality() {
    for a in samples() {
        for b in samples() {
            assert_eq!(str_eq(a, b), a == b);
        }
    }
}

#[test]
fn decimal_agrees_with_to_string() {
    let numbers: Vec<u64> = vec![0, 1, 9, 10, 11, 99, 100, 9996, 65535, 4294967296, u64::MAX];
    for n in numbers {
        assert_eq!(u64_to_string(n), n.to_string());
    }
}

#[test]
fn decimal_of_known_values() {
    assert_eq!(u64_to_string(0), "0");
    assert_eq!(u64_to_string(200), "200");
    assert_eq!(u64_to_string(18446744073709551615), "18446744073709551615");
}

#[test]
fn parse_agrees_with_std() {
    for s in samples() {
        assert_eq!(parse_usize(s), s.parse::<usize>().ok(), "parsing {:?}", s);
    }
}

#[test]
fn parse_known_values() {
    assert_eq!(parse_usize("0"), Some(0));
    assert_eq!(parse_usize("+12"), Some(12));
    assert_eq!(parse_usize("0042"), Some(42));
    assert_eq!(parse_usize(""), None);
    assert_eq!(parse_usize("+"), None);
    assert_eq!(parse_usize("-3"), None);
    assert_eq!(parse_usize("3.0"), None);
    assert_eq!(parse_usize("１"), None);
}

#[test]
fn split_agrees_with_std() {
    for s in samples() {
        for sep in vec![',', '"', '\n', 'a'] {
            let ours = to_strings(split(&chars_of(s), sep));
            let theirs: Vec<String> = s.split(sep).map(|p| p.to_string()).collect();
            assert_eq!(ours, theirs, "splitting {:?} on {:?}", s, sep);
        }
    }
}

#[test]
fn split_keeps_empty_pieces() {
    assert_eq!(to_strings(split(&chars_of("a,,b,"), ',')), vec!["a", "", "b", ""]);
    assert_eq!(to_strings(split(&chars_of(""), ',')), vec![""]);
}

#[test]
fn lines_agree_with_std() {
    for s in samples() {
        let ours = to_strings(lines(&chars_of(s)));
        let theirs: Vec<String> = s.lines().map(|p| p.to_string()).collect();
        assert_eq!(ours, theirs, "lines of {:?}", s);
    }
}

#[test]
fn lines_keep_a_bare_carriage_return_at_the_end() {
    assert_eq!(to_strings(lines(&chars_of("a\r\nb\r"))), vec!["a", "b\r"]);
    assert_eq!(to_strings(lines(&chars_of(""))).len(), 0);
    assert_eq!(to_strings(lines(&chars_of("\n"))), vec![""]);
}

#[test]
fn trim_agrees_with_std() {
    for s in samples() {
        assert_eq!(string_of(&trim(&chars_of(s))), s.trim(), "trimming {:?}", s);
    }
    assert_eq!(string_of(&trim(&chars_of(" \t\n "))), "");
}

#[test]
fn whitespace_agrees_with_std() {
    let mut code: u32 = 0;
    while code < 0x3100 {
        if let Some(c) = char::from_u32(code) {
            assert_eq!(char_is_whitespace(c), c.is_whitespace(), "character {:?}", c);
        }
        code += 1;
    }
    assert!(!char_is_whitespace('\u{feff}'));
    assert!(!char_is_whitespace('\u{200b}'));
}

#[test]
fn indent_counts_bytes() {
    for s in samples() {
        let expected = s.len() - s.trim_start().len();
        assert_eq!(indent(&chars_of(s)), expected, "indent of {:?}", s);
    }
    assert_eq!(indent(&chars_of("\u{3000}x")), 3);
    assert_eq!(indent(&chars_of("    ")), 4);
}

#[test]
fn search_agrees_with_std() {
    for s in samples() {
        for p in samples() {
            let hay = chars_of(s);
            let needle = chars_of(p);
            assert_eq!(contains(&hay, &needle), s.contains(p), "{:?} in {:?}", p, s);
            assert_eq!(starts_with(&hay, &needle), s.starts_with(p), "{:?} before {:?}", p, s);
        }
    }
}

#[test]
fn quoted_is_the_second_piece() {
    for s in samples() {
        let ours = first_quoted(&chars_of(s)).map(|v| string_of(&v));
        let theirs = s.split('"').nth(1).map(|p| p.to_string());
        assert_eq!(ours, theirs, "quoted in {:?}", s);
    }
    assert_eq!(
        first_quoted(&chars_of("tonic = \"0.9.2\"")).map(|v| string_of(&v)),
        Some("0.9.2".to_string())
    );
}
