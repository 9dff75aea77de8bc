use corplink::text::{
    chars_of, contains_chars, is_whitespace, lines_of, rest_after_colon_start, string_of, trim_range,
    trimmed, words_of,
};

const SAMPLES: &[&str] = &[
    "",
    "\n",
    "\n\n",
    "a",
    "a\n",
    "a\r\n",
    "a\r",
    "a\rb\n",
    "\r\n",
    "one\ntwo\r\nthree",
    "  lead and trail  ",
    "\t tabs\tand\u{a0}nbsp\u{3000}ideographic \u{2028}",
    "x::y:z",
    "no colon",
    ":leading",
    "trailing:",
    "  \u{85}\u{2000} ",
];

#[test]
fn whitespace_matches_std() {
    for code in 0u32..=0x10FFFF {
        if let Some(c) = char::from_u32(code) {
            assert_eq!(is_whitespace(c), c.is_whitespace(), "U+{:04X}", code);
        }
    }
}

#[test]
fn lines_match_std() {
    for s in SAMPLES {
        let expected: Vec<String> = s.lines().map(|l| l.to_string()).collect();
        assert_eq!(lines_of(s), expected, "{:?}", s);
    }
}

#[test]
fn words_match_std() {
    for s in SAMPLES {
        let v = chars_of(s);
        let expected: Vec<String> = s.split_whitespace().map(|w| w.to_string()).collect();
        assert_eq!(words_of(&v, 0, v.len()), expected, "{:?}", s);
    }
    let v = chars_of("ab cd ef");
    assert_eq!(words_of(&v, 1, 7), vec!["b".to_string(), "cd".to_string(), "e".to_string()]);
}

#[test]
fn trim_matches_std() {
    for s in SAMPLES {
        assert_eq!(trimmed(s), s.trim(), "{:?}", s);
    }
    let v = chars_of("[  x y  ]");
    let (lo, hi) = trim_range(&v, 1, 8);
    assert_eq!(string_of(&v, lo, hi), "x y");
}

#[test]
fn rest_after_colon_matches_std() {
    for s in SAMPLES {
        let v = chars_of(s);
        let lo = rest_after_colon_start(&v, 0, v.len());
        let expected = s.split_once(':').map_or("", |(_, rest)| rest);
        assert_eq!(string_of(&v, lo, v.len()), expected, "{:?}", s);
    }
}

#[test]
fn contains_matches_std() {
    let hay = "    DNS Servers: 1.1.1.1";
    for needle in ["DNS Servers:", "DNS Domain:", "", "1.1.1.1", "1.1.1.1 ", " "] {
        assert_eq!(
            contains_chars(&chars_of(hay), &chars_of(needle)),
            hay.contains(needle),
            "{:?}",
            needle
        );
    }
    assert!(!contains_chars(&chars_of("ab"), &chars_of("abc")));
}

#[test]
fn chars_and_strings() {
    let v = chars_of("héllo");
    assert_eq!(v, vec!['h', 'é', 'l', 'l', 'o']);
    assert_eq!(string_of(&v, 1, 4), "éll");
    assert_eq!(string_of(&v, 2, 2), "");
}
