use strict_linking::literal::{find_unreadable, readable_literal};

fn tokens(texts: &[&str]) -> Vec<String> {
    texts.iter().map(|text| text.to_string()).collect()
}

#[test]
fn strings_characters_and_numbers_are_readable() {
    for token in ["\"s\"", "\"\"", "r\"s\"", "r#\"s\"#", "'c'", "0", "17u8", "9.5e3", "0x1f"] {
        assert!(readable_literal(token), "{}", token);
    }
}

#[test]
fn bytes_and_byte_strings_are_readable() {
    for token in ["b\"s\"", "b'c'", "br\"s\"", "br#\"s\"#"] {
        assert!(readable_literal(token), "{}", token);
    }
}

#[test]
fn c_strings_and_the_error_mark_are_not_readable() {
    for token in ["c\"s\"", "cr\"s\"", "cr#\"s\"#", "(/*ERROR*/)"] {
        assert!(!readable_literal(token), "{}", token);
    }
}

#[test]
fn other_tokens_are_not_readable() {
    for token in ["", "b", "bx", "b0", "c", "x", "-1", "true", "\u{e9}", "\u{661}"] {
        assert!(!readable_literal(token), "{}", token);
    }
}

#[test]
fn first_unreadable_token_is_found() {
    assert_eq!(find_unreadable(&tokens(&[])), None);
    assert_eq!(find_unreadable(&tokens(&["1", "\"s\"", "b'c'"])), None);
    assert_eq!(
        find_unreadable(&tokens(&["1", "c\"a\"", "2", "c\"b\""])),
        Some(String::from("c\"a\""))
    );
    assert_eq!(find_unreadable(&tokens(&["(/*ERROR*/)"])), Some(String::from("(/*ERROR*/)")));
    assert_eq!(find_unreadable(&tokens(&["1", ""])), Some(String::new()));
}
