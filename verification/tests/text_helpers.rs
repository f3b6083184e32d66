use rosu_pp_verifier::text::{
    ends_with, i64_to_string, join_strings, parse_i32, rsplit_first, split, starts_with, str_eq,
    strip_prefix, strip_suffix, trim_end_matches, u64_to_string, unescape_quotes,
};

#[test]
fn decimal_text_of_numbers() {
    assert_eq!(u64_to_string(0), "0");
    assert_eq!(u64_to_string(7), "7");
    assert_eq!(u64_to_string(1029976), "1029976");
    assert_eq!(u64_to_string(u64::MAX), u64::MAX.to_string());
    assert_eq!(i64_to_string(-42), "-42");
    assert_eq!(i64_to_string(i64::MIN), i64::MIN.to_string());
    assert_eq!(i64_to_string(i64::MAX), i64::MAX.to_string());
}

#[test]
fn parse_i32_like_std() {
    for s in [
        "0", "12", "+12", "-12", "", "+", "-", "1a", " 1", "2147483647", "2147483648",
        "-2147483648", "-2147483649", "0000000000000000000001", "99999999999999999999", "--1",
        "+-1", "١",
    ] {
        assert_eq!(parse_i32(s), s.parse::<i32>().ok(), "input {s:?}");
    }
}

#[test]
fn string_prefix_and_suffix() {
    assert!(str_eq("abc", "abc"));
    assert!(!str_eq("abc", "abd"));
    assert!(!str_eq("abc", "ab"));
    assert!(starts_with("hello", "he"));
    assert!(!starts_with("he", "hello"));
    assert!(ends_with("map.osu", ".osu"));
    assert_eq!(strip_prefix("(x)", "("), Some("x)"));
    assert_eq!(strip_prefix("x)", "("), None);
    assert_eq!(strip_suffix("a);\n", ");\n"), Some("a"));
    assert_eq!(strip_suffix("a)", ");\n"), None);
}

#[test]
fn trim_and_last_segment() {
    assert_eq!(trim_end_matches("a.osu.osu", ".osu"), "a");
    assert_eq!(trim_end_matches("a.osu.osu", ".osu"), "a.osu.osu".trim_end_matches(".osu"));
    assert_eq!(trim_end_matches("abc", ""), "abc");
    assert_eq!(rsplit_first("maps/dir/123", '/'), "123");
    assert_eq!(rsplit_first("123", '/'), "123");
    assert_eq!(rsplit_first("maps/", '/'), "");
}

#[test]
fn split_like_std() {
    for (s, p) in [
        ("1,'a'),(2,'b'),(3,'c'", "),("),
        ("", "),("),
        ("),(", "),("),
        ("aaa", "aa"),
        ("x),(),(y", "),("),
    ] {
        let expected: Vec<&str> = s.split(p).collect();
        assert_eq!(split(s, p), expected, "input {s:?} {p:?}");
    }
}

#[test]
fn split_then_join_gives_back_the_text() {
    let s = "1,'a'),(2,'b'),(3,'c'";
    let pieces: Vec<String> = split(s, "),(").into_iter().map(String::from).collect();
    assert_eq!(join_strings(&pieces, "),("), s);
}

#[test]
fn unescape_quotes_like_replace() {
    for s in [r#"{\"mods\":[]}"#, r#"\\"x"#, "no quotes", r#"\"#, r#"\"\""#] {
        assert_eq!(unescape_quotes(s), s.replace("\\\"", "\""), "input {s:?}");
    }
}

#[test]
fn join_strings_with_separator() {
    let parts = vec!["a".to_string(), "b".to_string(), "c".to_string()];
    assert_eq!(join_strings(&parts, ", "), "a, b, c");
    assert_eq!(join_strings(&Vec::new(), ", "), "");
}
