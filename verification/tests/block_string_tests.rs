use graphql_rs::text::blocks::{
    is_regular_block_string, process_block_string, try_process_block_string,
};

#[test]
fn block_string_without_lines_is_empty() {
    assert_eq!(process_block_string(""), "");
    assert_eq!(process_block_string("   "), "");
    assert_eq!(process_block_string("\n"), "");
    assert_eq!(process_block_string("\n\n"), "");
}

#[test]
fn block_string_of_one_line_is_kept() {
    assert_eq!(process_block_string("Hello"), "Hello");
    assert_eq!(process_block_string("  Hello  "), "Hello  ");
}

#[test]
fn block_string_loses_its_common_indent() {
    assert_eq!(process_block_string("\n    Hello\n    World\n  "), "Hello\nWorld");
    assert_eq!(process_block_string("\n    Hello\n      World\n    "), "Hello\n  World");
    assert_eq!(process_block_string("    Hello\n  World"), "  Hello\nWorld");
    assert_eq!(process_block_string("\tfoo\n\t\tbar"), "foo\n\tbar");
}

#[test]
fn block_string_blank_first_and_last_lines_are_dropped() {
    assert_eq!(process_block_string("  \n  a\n  b\n  "), "a\nb");
    // Only one blank line is dropped at each end.
    assert_eq!(process_block_string("\n\n  a\n\n"), "\na");
    assert_eq!(process_block_string("\n\n  a\n\n\n"), "\na\n");
    // A last line that is not blank stays.
    assert_eq!(process_block_string("\n  a\n  b"), "a\nb");
}

#[test]
fn block_string_blank_lines_inside_do_not_count_for_the_indent() {
    assert_eq!(process_block_string("\n  a\n\n  b\n"), "a\n\nb");
    assert_eq!(process_block_string("  a\n \n  b"), "a\n \nb");
    assert_eq!(process_block_string("  a\n      \n  b"), "a\n    \nb");
}

#[test]
fn block_string_of_blank_lines_keeps_the_inner_ones() {
    assert_eq!(process_block_string("   \n   \n   "), "   ");
    assert_eq!(process_block_string(" \n  \n   \n "), "  \n   ");
}

#[test]
fn block_string_line_endings() {
    assert_eq!(process_block_string("  a\r\n  b\r\n"), "a\nb");
    // A carriage return that no line feed follows is part of the line.
    assert_eq!(process_block_string("a\r"), "a\r");
    assert_eq!(process_block_string("  a\rb\n  c"), "a\rb\nc");
    assert_eq!(process_block_string("a\n\r\nb"), "a\n\nb");
}

#[test]
fn block_string_keeps_other_characters() {
    assert_eq!(process_block_string("  \u{e9}t\u{e9}\n    \u{fc}ber"), "\u{e9}t\u{e9}\n  \u{fc}ber");
    assert_eq!(process_block_string("  \"quoted\" \\n\n  x"), "\"quoted\" \\n\nx");
}

#[test]
fn block_string_with_wide_white_space() {
    // Both lines are indented by the same three-byte space.
    let text = "\u{3000}a\n\u{3000}\u{3000}b";
    assert!(is_regular_block_string(text));
    assert_eq!(process_block_string(text), "a\n\u{3000}b");
    assert_eq!(try_process_block_string(text), Some("a\n\u{3000}b".to_string()));
}

#[test]
fn block_string_whose_indent_cuts_a_character_is_refused() {
    // One byte of indent on the first line, a three-byte space on the second.
    let text = " a\n\u{3000}b";
    assert!(!is_regular_block_string(text));
    assert_eq!(try_process_block_string(text), None);
    // A blank line inside counts too.
    let text = " a\n\u{3000}\n b";
    assert!(!is_regular_block_string(text));
    assert_eq!(try_process_block_string(text), None);
    // A blank line at the end does not: it is dropped.
    let text = " a\n b\n\u{3000}";
    assert!(is_regular_block_string(text));
    assert_eq!(try_process_block_string(text), Some("a\nb".to_string()));
}

#[test]
fn try_process_block_string_agrees_on_regular_text() {
    for text in ["", "x", "\n    Hello\n      World\n    ", "  a\r\n  b\r\n", "   \n   \n   "] {
        assert!(is_regular_block_string(text));
        assert_eq!(try_process_block_string(text), Some(process_block_string(text)));
    }
}

#[test]
fn block_string_knows_every_white_space_character() {
    let white = [
        0x0009u32, 0x000A, 0x000B, 0x000C, 0x000D, 0x0020, 0x0085, 0x00A0, 0x1680, 0x2000, 0x2001,
        0x2002, 0x2003, 0x2004, 0x2005, 0x2006, 0x2007, 0x2008, 0x2009, 0x200A, 0x2028, 0x2029,
        0x202F, 0x205F, 0x3000,
    ];
    for code in white {
        let c = char::from_u32(code).unwrap();
        if c == '\n' {
            continue;
        }
        // As the indent of the one line that counts, the character is cut off.
        assert_eq!(process_block_string(&format!("{c}a")), "a", "U+{code:04X}");
    }
    // Neighbours of the white-space characters are kept.
    for code in [0x0008u32, 0x000E, 0x001F, 0x0021, 0x0084, 0x0086, 0x009F, 0x00A1, 0x167F, 0x1681, 0x180E, 0x1FFF, 0x200B, 0x2027, 0x202A, 0x202E, 0x2030, 0x205E, 0x2060, 0x2FFF, 0x3001, 0xFEFF] {
        let c = char::from_u32(code).unwrap();
        assert_eq!(process_block_string(&format!("{c}a")), format!("{c}a"), "U+{code:04X}");
    }
}
