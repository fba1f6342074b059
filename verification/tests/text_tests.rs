use graphql_rs::text::escapes::process_string_escapes;

#[test]
fn process_string_escapes_test() {
    assert_eq!(process_string_escapes(r#"Hello\nWorld"#), "Hello\nWorld");
    assert_eq!(process_string_escapes(r#"Quote: \""#), r#"Quote: ""#);
    assert_eq!(process_string_escapes(r#"Unicode: \u0041"#), "Unicode: A");
}

#[test]
fn every_simple_escape() {
    assert_eq!(
        process_string_escapes(r#"\"\\\/\b\f\n\r\t"#),
        "\"\\/\u{0008}\u{000C}\n\r\t"
    );
}

#[test]
fn text_without_escapes_is_unchanged() {
    assert_eq!(process_string_escapes(""), "");
    assert_eq!(process_string_escapes("plain text, \u{fc}n\u{ef}c\u{f6}d\u{e9}"), "plain text, \u{fc}n\u{ef}c\u{f6}d\u{e9}");
}

#[test]
fn unknown_escape_is_kept_with_its_backslash() {
    assert_eq!(process_string_escapes(r#"a\qb"#), "a\\qb");
    assert_eq!(process_string_escapes("\\\u{e9}"), "\\\u{e9}");
}

#[test]
fn backslash_at_the_end_is_kept() {
    assert_eq!(process_string_escapes("abc\\"), "abc\\");
    assert_eq!(process_string_escapes("\\"), "\\");
}

#[test]
fn unicode_escape_in_either_case() {
    assert_eq!(process_string_escapes(r#"\u00e9"#), "\u{e9}");
    assert_eq!(process_string_escapes(r#"\u00E9"#), "\u{e9}");
    assert_eq!(process_string_escapes(r#"\u2713x"#), "\u{2713}x");
    assert_eq!(process_string_escapes(r#"\uFFFF"#), "\u{FFFF}");
    assert_eq!(process_string_escapes(r#"\u0000"#), "\u{0}");
}

#[test]
fn unicode_escape_of_a_surrogate_is_dropped() {
    assert_eq!(process_string_escapes(r#"a\uD800b"#), "ab");
    assert_eq!(process_string_escapes(r#"a\uDFFFb"#), "ab");
    assert_eq!(process_string_escapes(r#"a\uD7FFb"#), "a\u{D7FF}b");
    assert_eq!(process_string_escapes(r#"a\uE000b"#), "a\u{E000}b");
}

#[test]
fn unicode_escape_that_is_no_number_is_dropped() {
    // The four characters after the marker are taken whatever they are.
    assert_eq!(process_string_escapes(r#"a\uZZZZb"#), "ab");
    assert_eq!(process_string_escapes(r#"a\u12G4b"#), "ab");
    assert_eq!(process_string_escapes(r#"a\u-041b"#), "ab");
    assert_eq!(process_string_escapes(r#"a\u""#), "a");
    assert_eq!(process_string_escapes(r#"\u"#), "");
    assert_eq!(process_string_escapes(r#"\u+"#), "");
    assert_eq!(process_string_escapes(r#"\u\n\n"#), "");
}

#[test]
fn unicode_escape_cut_short_by_the_end() {
    assert_eq!(process_string_escapes(r#"\u41"#), "A");
    assert_eq!(process_string_escapes(r#"x\u4"#), "x\u{4}");
}

#[test]
fn unicode_escape_with_a_plus_sign() {
    assert_eq!(process_string_escapes(r#"\u+041"#), "A");
    assert_eq!(process_string_escapes(r#"\u+41"#), "A");
}

#[test]
fn escapes_follow_each_other() {
    assert_eq!(process_string_escapes(r#"\\n"#), "\\n");
    assert_eq!(process_string_escapes(r#"\\\n"#), "\\\n");
    assert_eq!(process_string_escapes(r#"\u0041\u0042\t"#), "AB\t");
}
