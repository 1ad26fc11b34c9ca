use resistor_color::text::{same_text, split_on_space};

#[test]
fn split_keeps_empty_pieces() {
    assert_eq!(split_on_space("a b"), vec!["a", "b"]);
    assert_eq!(split_on_space("a  b"), vec!["a", "", "b"]);
    assert_eq!(split_on_space(" a "), vec!["", "a", ""]);
    assert_eq!(split_on_space(""), vec![""]);
    assert_eq!(split_on_space("a\tb"), vec!["a\tb"]);
}

#[test]
fn same_text_compares_characters() {
    assert!(same_text("grey", "grey"));
    assert!(!same_text("grey", "gray"));
    assert!(!same_text("grey", "greyy"));
    assert!(same_text("", ""));
}
