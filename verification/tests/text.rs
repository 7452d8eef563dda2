use tab_runner::text::{
    chars_of, decimal, is_blank_text, is_space, join_texts, same_text, strip_line_end, trim,
    trim_range,
};

#[test]
fn trim_agrees_with_the_standard_library() {
    for s in [
        "",
        " ",
        "a",
        "  a  ",
        "\t\n a b \r\n",
        "\u{00A0}x\u{3000}",
        "\u{2003}\u{2028}mid dle\u{0085}",
        "no-space",
        " \u{200B} ",
        "\u{1680}\u{205F}",
        "x ",
        " x",
    ] {
        assert_eq!(trim(s), s.trim(), "{:?}", s);
        assert_eq!(is_blank_text(s), s.trim().is_empty(), "{:?}", s);
    }
}

#[test]
fn white_space_is_what_the_standard_library_calls_so() {
    let mut n: u32 = 0;
    while n <= 0x3100 {
        if let Some(c) = char::from_u32(n) {
            assert_eq!(is_space(c), c.is_whitespace(), "U+{:04X}", n);
        }
        n += 1;
    }
    assert!(!is_space('\u{10FFFF}'));
    assert!(!is_space('\u{FEFF}'));
}

#[test]
fn trim_range_trims_inside_the_bounds() {
    let chars = chars_of("ab  cd  ef");
    assert_eq!(trim_range(&chars, 2, 8), (4, 6));
    assert_eq!(trim_range(&chars, 2, 4), (4, 4));
    assert_eq!(trim_range(&chars, 0, 10), (0, 10));
    assert_eq!(trim_range(&chars, 5, 7), (5, 6));
    assert_eq!(trim_range(&chars, 3, 3), (3, 3));
}

#[test]
fn chars_of_keeps_every_character() {
    assert_eq!(chars_of("héllo\n"), vec!['h', 'é', 'l', 'l', 'o', '\n']);
    assert_eq!(chars_of(""), Vec::<char>::new());
}

#[test]
fn decimal_writes_integers() {
    assert_eq!(decimal(0), "0");
    assert_eq!(decimal(7), "7");
    assert_eq!(decimal(10), "10");
    assert_eq!(decimal(137), "137");
    assert_eq!(decimal(-1), "-1");
    assert_eq!(decimal(-120), "-120");
    assert_eq!(decimal(i32::MAX), "2147483647");
    assert_eq!(decimal(i32::MIN), "-2147483648");
    for n in [-1000, -99, -10, -9, 1, 9, 99, 100, 101, 255, 256, 65535] {
        assert_eq!(decimal(n), n.to_string());
    }
}

#[test]
fn join_puts_the_separator_between_neighbours() {
    let parts = |items: &[&str]| items.iter().map(|s| s.to_string()).collect::<Vec<String>>();
    assert_eq!(join_texts(&parts(&[]), ", "), "");
    assert_eq!(join_texts(&parts(&["a"]), ", "), "a");
    assert_eq!(join_texts(&parts(&["a", "b", "c"]), ", "), "a, b, c");
    assert_eq!(join_texts(&parts(&["", ""]), "\n"), "\n");
}

#[test]
fn same_text_compares_characters() {
    assert!(same_text("Rust", "Rust"));
    assert!(!same_text("Rust", "rust"));
    assert!(!same_text("Rust", "Rust "));
    assert!(same_text("", ""));
}

#[test]
fn a_line_loses_its_ending_only() {
    assert_eq!(strip_line_end("abc\n"), "abc");
    assert_eq!(strip_line_end("abc\r\n"), "abc");
    assert_eq!(strip_line_end("abc"), "abc");
    assert_eq!(strip_line_end("abc\r"), "abc\r");
    assert_eq!(strip_line_end("  \n"), "  ");
    assert_eq!(strip_line_end("\n"), "");
    assert_eq!(strip_line_end("\r\n"), "");
    assert_eq!(strip_line_end(""), "");
    assert_eq!(strip_line_end("a\n\n"), "a\n");
    assert_eq!(strip_line_end("a\r\r\n"), "a\r");
}
