use kenterm::text::{chars_eq_str, chars_to_string, split_text, str_to_chars, tokenize};

#[test]
fn chars_round_trip_through_string() {
    let chars = str_to_chars("hello world");
    assert_eq!(chars_to_string(&chars), "hello world");
    assert_eq!(chars_to_string(&str_to_chars("")), "");
}

#[test]
fn chars_eq_str_compares_contents() {
    assert!(chars_eq_str(&vec!['a', 'b'], "ab"));
    assert!(!chars_eq_str(&vec!['a', 'b'], "abc"));
    assert!(!chars_eq_str(&vec!['a', 'b'], "ax"));
    assert!(chars_eq_str(&vec![], ""));
}

#[test]
fn tokenize_splits_on_runs_of_whitespace() {
    let line = str_to_chars("  cat   /tmp/a\tb ");
    let tokens = tokenize(&line);
    assert_eq!(tokens, vec!["cat", "/tmp/a", "b"]);
}

#[test]
fn tokenize_of_blank_line_is_empty() {
    assert_eq!(tokenize(&str_to_chars("")).len(), 0);
    assert_eq!(tokenize(&str_to_chars("   ")).len(), 0);
}

#[test]
fn split_text_keeps_empty_pieces() {
    assert_eq!(split_text(&str_to_chars("a\n\nb")), vec!["a", "", "b"]);
    assert_eq!(split_text(&str_to_chars("")), vec![""]);
    assert_eq!(split_text(&str_to_chars("a\n")), vec!["a", ""]);
    assert_eq!(split_text(&str_to_chars("\n")), vec!["", ""]);
}
