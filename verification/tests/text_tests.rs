use code_termination::text::{
    char_is_ws, chars_equal, chars_of, parse_bool_chars, parse_u32_chars, push_bool,
    push_decimal, split_chars, trim_chars,
};

fn v(s: &str) -> Vec<char> {
    s.chars().collect()
}

#[test]
fn white_space_matches_std() {
    for c in ['\t', '\n', '\u{b}', '\u{c}', '\r', ' ', '\u{85}', '\u{a0}', '\u{1680}', '\u{2000}', '\u{200a}', '\u{2028}', '\u{2029}', '\u{202f}', '\u{205f}', '\u{3000}', 'a', '\u{200b}', '0', '\u{feff}'] {
        assert_eq!(char_is_ws(c), c.is_whitespace(), "{:?}", c);
    }
}

#[test]
fn trim_matches_std() {
    for s in ["", "   ", " a b ", "\u{3000}x\u{a0}", "abc", "\n\tq\r\n"] {
        let t: String = trim_chars(&v(s)).into_iter().collect();
        assert_eq!(t, s.trim());
    }
}

#[test]
fn split_matches_std() {
    for s in ["", ",", "a,b", ",a,,b,", "abc"] {
        let parts: Vec<String> = split_chars(&v(s), ',').into_iter().map(|p| p.into_iter().collect()).collect();
        let expected: Vec<String> = s.split(',').map(|p| p.to_string()).collect();
        assert_eq!(parts, expected);
    }
}

#[test]
fn parse_bool_matches_std() {
    for s in ["true", "false", "True", "", "tru", "falsey", " true"] {
        assert_eq!(parse_bool_chars(&v(s)), s.parse::<bool>().ok(), "{:?}", s);
    }
}

#[test]
fn parse_u32_matches_std() {
    for s in ["0", "42", "+42", "-0", "-1", "+", "", "4294967295", "4294967296", "00012", "1_000", " 1", "99999999999999999999"] {
        assert_eq!(parse_u32_chars(&v(s)), s.parse::<u32>().ok(), "{:?}", s);
    }
}

#[test]
fn decimal_matches_std() {
    for n in [0u32, 7, 10, 99, 100, 12345, 4294967295] {
        let mut out = String::from("x");
        push_decimal(&mut out, n);
        assert_eq!(out, format!("x{}", n));
    }
    let mut out = String::new();
    push_bool(&mut out, true);
    push_bool(&mut out, false);
    assert_eq!(out, "truefalse");
}

#[test]
fn equality_and_chars() {
    assert_eq!(chars_of("héllo"), v("héllo"));
    assert!(chars_equal(&v("DLC"), "DLC"));
    assert!(!chars_equal(&v("DL"), "DLC"));
    assert!(!chars_equal(&v("DLc"), "DLC"));
}
