use dart::scan::{
    fields, find_first, find_last_end, find_text, lines, parse_u32, slice_of, starts_with,
    string_of, take_after_last, take_before_first, text_matches_at, trim, words, CharClass,
};
use dart::text::{
    char_is_ascii_alnum, char_is_digit, char_is_space, chars_of, decimal_string, push_decimal,
    push_text,
};

fn chars(s: &str) -> Vec<char> {
    s.chars().collect()
}

fn strings(parts: Vec<Vec<char>>) -> Vec<String> {
    parts.iter().map(|p| p.iter().collect()).collect()
}

const SAMPLES: [&str; 22] = [
    "",
    " ",
    "a",
    "abc",
    "  abc  ",
    "\tabc def\n",
    "a\nb",
    "a\nb\n",
    "a\r\nb\r\n",
    "a\rb\r",
    "\n",
    "\n\n",
    "\r\n",
    "\r",
    "a\n\nb",
    "x\u{a0}y\u{2003}z",
    "\u{3000}wide\u{3000}",
    "one  two\tthree\r\nfour",
    "a,b,,c,",
    ",",
    "1920x1080",
    "émile zola\u{85}",
];

#[test]
fn decimal_numerals() {
    assert_eq!(decimal_string(0), "0");
    assert_eq!(decimal_string(7), "7");
    assert_eq!(decimal_string(10), "10");
    assert_eq!(decimal_string(8554), "8554");
    assert_eq!(decimal_string(4294967295), "4294967295");
    assert_eq!(decimal_string(u64::MAX), "18446744073709551615");
    for n in [0u64, 1, 9, 10, 11, 99, 100, 101, 12345, 1000000, u64::MAX - 1] {
        assert_eq!(decimal_string(n), n.to_string());
    }
    let mut out = String::from("n=");
    push_decimal(&mut out, 42);
    push_text(&mut out, "!");
    assert_eq!(out, "n=42!");
}

#[test]
fn character_classes_agree_with_std() {
    for code in 0u32..0x3100 {
        if let Some(c) = char::from_u32(code) {
            assert_eq!(char_is_space(c), c.is_whitespace(), "{:?}", c);
            assert_eq!(char_is_digit(c), c.is_ascii_digit(), "{:?}", c);
            assert_eq!(char_is_ascii_alnum(c), c.is_ascii_alphanumeric(), "{:?}", c);
        }
    }
    assert!(!char_is_space('\u{200b}'));
    assert!(!char_is_space('\u{feff}'));
}

#[test]
fn chars_and_strings_round_trip() {
    for s in SAMPLES {
        assert_eq!(chars_of(s), chars(s));
        assert_eq!(string_of(&chars(s)), s);
    }
    assert_eq!(slice_of(&chars("hello"), 1, 4), chars("ell"));
    assert_eq!(slice_of(&chars("hello"), 2, 2), chars(""));
    assert_eq!(slice_of(&chars("hello"), 0, 5), chars("hello"));
}

#[test]
fn trim_agrees_with_std() {
    for s in SAMPLES {
        assert_eq!(string_of(&trim(&chars(s))), s.trim(), "{:?}", s);
    }
    assert_eq!(string_of(&trim(&chars("  a b  "))), "a b");
}

#[test]
fn lines_agree_with_std() {
    for s in SAMPLES {
        let expected: Vec<String> = s.lines().map(|l| l.to_string()).collect();
        assert_eq!(strings(lines(&chars(s))), expected, "{:?}", s);
    }
    assert_eq!(strings(lines(&chars("a\r\nb\rc\n\nd\r"))), vec!["a", "b\rc", "", "d\r"]);
}

#[test]
fn words_agree_with_std() {
    for s in SAMPLES {
        let expected: Vec<String> = s.split_whitespace().map(|l| l.to_string()).collect();
        assert_eq!(strings(words(&chars(s))), expected, "{:?}", s);
    }
    assert_eq!(strings(words(&chars("  Size:  Discrete 640x480 "))), vec![
        "Size:",
        "Discrete",
        "640x480"
    ]);
}

#[test]
fn fields_agree_with_std() {
    for s in SAMPLES {
        for separator in [',', 'x', '/', '\n'] {
            let expected: Vec<String> = s.split(separator).map(|l| l.to_string()).collect();
            assert_eq!(strings(fields(&chars(s), separator)), expected, "{:?}", s);
        }
    }
    assert_eq!(strings(fields(&chars("a,b,,c,"), ',')), vec!["a", "b", "", "c", ""]);
    assert_eq!(strings(fields(&chars(""), ',')), vec![""]);
}

#[test]
fn searches() {
    let text = chars("[0]: 'YUYV' (YUYV 4:2:2)");
    assert_eq!(find_first(&text, CharClass::Is('\''), 0), 5);
    assert_eq!(find_first(&text, CharClass::Is('\''), 6), 10);
    assert_eq!(find_first(&text, CharClass::Is('#'), 0), text.len());
    assert_eq!(find_first(&text, CharClass::Space, 0), 4);
    assert_eq!(find_first(&text, CharClass::NotSpace, 4), 5);
    assert_eq!(find_last_end(&text, CharClass::Is(')'), text.len()), text.len());
    assert_eq!(find_last_end(&text, CharClass::Is('('), text.len()), 13);
    assert_eq!(find_last_end(&text, CharClass::Is('#'), text.len()), 0);
    assert_eq!(find_text(&text, "YUYV", 0), 6);
    assert_eq!(find_text(&text, "YUYV", 7), 13);
    assert_eq!(find_text(&text, "YUYV", 14), text.len());
    assert_eq!(find_text(&text, "nothing", 0), text.len());
    assert!(starts_with(&text, "[0]"));
    assert!(starts_with(&text, ""));
    assert!(!starts_with(&text, "0]"));
    assert!(!starts_with(&chars("ab"), "abc"));
    assert!(text_matches_at(&text, &chars("4:2:2)"), 18));
    assert!(!text_matches_at(&text, &chars("4:2:2)"), 19));
    for s in SAMPLES {
        for pattern in ["a", "\n", "b\r", "abc", "  "] {
            let expected = s.find(pattern).map(|at| s[..at].chars().count());
            let found = find_text(&chars(s), pattern, 0);
            let found = if found < chars(s).len() { Some(found) } else { None };
            assert_eq!(found, expected, "{:?} in {:?}", pattern, s);
            assert_eq!(starts_with(&chars(s), pattern), s.starts_with(pattern));
        }
    }
}

#[test]
fn before_and_after() {
    assert_eq!(string_of(&take_before_first(&chars("host:554/path"), '/')), "host:554");
    assert_eq!(string_of(&take_before_first(&chars("host:554"), ':')), "host");
    assert_eq!(string_of(&take_before_first(&chars("host"), ':')), "host");
    assert_eq!(string_of(&take_before_first(&chars(":x"), ':')), "");
    assert_eq!(string_of(&take_after_last(&chars("user@pw@host"), '@')), "host");
    assert_eq!(string_of(&take_after_last(&chars("host"), '@')), "host");
    assert_eq!(string_of(&take_after_last(&chars("host@"), '@')), "");
}

#[test]
fn parse_u32_agrees_with_std() {
    let samples = [
        "", "0", "7", "007", "+7", "+", "-7", "-0", " 7", "7 ", "1920", "4294967295",
        "4294967296", "99999999999999999999999", "+4294967295", "++1", "1+", "12a", "a12", "1.0",
        "٣", "0x10", "1_000",
    ];
    for s in samples {
        assert_eq!(parse_u32(&chars(s)), s.parse::<u32>().ok(), "{:?}", s);
    }
    assert_eq!(parse_u32(&chars("1080")), Some(1080));
    assert_eq!(parse_u32(&chars("4294967296")), None);
}
