use ec2::text::{copy_texts, decimal_text, is_white_space, join, parse_number, same_text, split, trim};

#[test]
fn numbers_are_written_in_decimal() {
    assert_eq!(decimal_text(0), "0");
    assert_eq!(decimal_text(7), "7");
    assert_eq!(decimal_text(10), "10");
    assert_eq!(decimal_text(90210), "90210");
    assert_eq!(decimal_text(usize::MAX), usize::MAX.to_string());
}

#[test]
fn white_space_is_that_of_unicode() {
    for code in 0..=0x10FFFFu32 {
        if let Some(c) = char::from_u32(code) {
            assert_eq!(is_white_space(c), c.is_whitespace(), "{:x}", code);
        }
    }
}

#[test]
fn trimming_takes_both_ends() {
    assert_eq!(trim(""), "");
    assert_eq!(trim(" \t\r\n"), "");
    assert_eq!(trim("terminate\n"), "terminate");
    assert_eq!(trim("  a b\u{3000}"), "a b");
    assert_eq!(trim("\u{a0}\u{e9}t\u{e9} "), "\u{e9}t\u{e9}");
    assert_eq!(trim(trim("  x  ")), trim("  x  "));
}

#[test]
fn trimming_agrees_with_the_standard_library() {
    for text in ["", " ", "a", " a", "a ", "\u{85}b\u{2028}", "\u{200b}c\u{200b}", "\n\nd e\n"] {
        assert_eq!(trim(text), text.trim());
    }
}

#[test]
fn splitting_keeps_empty_pieces() {
    assert_eq!(split("", ','), vec![""]);
    assert_eq!(split(",", ','), vec!["", ""]);
    assert_eq!(split("a,b,,c", ','), vec!["a", "b", "", "c"]);
    assert_eq!(split("no separator", ','), vec!["no separator"]);
    assert_eq!(split("\u{fc},\u{1F7E2},", ','), vec!["\u{fc}", "\u{1F7E2}", ""]);
}

#[test]
fn pieces_join_back() {
    for text in ["", ",", "running,stopped", ",a,,b,"] {
        assert_eq!(join(&split(text, ','), ","), text);
    }
}

#[test]
fn joining_separates() {
    assert_eq!(join(&[], ", "), "");
    assert_eq!(join(&["i-1".to_string()], ", "), "i-1");
    assert_eq!(join(&["i-1".to_string(), "i-2".to_string(), "i-3".to_string()], ", "), "i-1, i-2, i-3");
}

#[test]
fn numbers_are_read() {
    assert_eq!(parse_number("0"), Some(0));
    assert_eq!(parse_number("+12"), Some(12));
    assert_eq!(parse_number("0003"), Some(3));
    assert_eq!(parse_number(&usize::MAX.to_string()), Some(usize::MAX));
}

#[test]
fn other_texts_are_not_numbers() {
    assert_eq!(parse_number(""), None);
    assert_eq!(parse_number("+"), None);
    assert_eq!(parse_number("++1"), None);
    assert_eq!(parse_number("-1"), None);
    assert_eq!(parse_number("1 "), None);
    assert_eq!(parse_number("1_000"), None);
    assert_eq!(parse_number("\u{0661}"), None);
    assert_eq!(parse_number("99999999999999999999999999"), None);
}

#[test]
fn numbers_are_read_as_the_standard_library_does() {
    let longest = usize::MAX.to_string();
    let longer = format!("{}0", longest);
    let beyond = "18446744073709551616";
    for text in ["5", "+5", "-5", "05", "5x", "x5", "", "+", " 5", longest.as_str(), longer.as_str(), beyond] {
        assert_eq!(parse_number(text), text.parse::<usize>().ok());
    }
}

#[test]
fn written_numbers_read_back() {
    for n in [0usize, 1, 9, 10, 99, 100, 12345, usize::MAX] {
        assert_eq!(parse_number(&decimal_text(n)), Some(n));
    }
}

#[test]
fn texts_are_compared_and_copied() {
    assert!(same_text("abc", "abc"));
    assert!(!same_text("abc", "abd"));
    assert!(!same_text("abc", "ab"));
    assert_eq!(copy_texts(&["a".to_string(), "b".to_string()]), vec!["a", "b"]);
}
