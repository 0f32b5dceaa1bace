//! The console code sequence.

use nezha_sbi::console::print;

#[test]
fn print_inserts_carriage_return_before_line_feed() {
    let out = print("ab\ncd\n");
    let expected: Vec<char> = vec!['a', 'b', '\r', '\n', 'c', 'd', '\r', '\n'];
    assert_eq!(out, expected);
}

#[test]
fn print_plain_text_unchanged() {
    let out = print("platform up");
    let expected: Vec<char> = "platform up".chars().collect();
    assert_eq!(out, expected);
}

#[test]
fn print_empty_text() {
    let out = print("");
    assert!(out.is_empty());
}

#[test]
fn print_lone_line_feed() {
    let out = print("\n");
    assert_eq!(out, vec!['\r', '\n']);
}
