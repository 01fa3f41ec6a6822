use rust_examples::borrowing::{first_word, references_borrowing};

#[test]
fn first_word_of_hello_world() {
    assert_eq!(first_word(&String::from("hello world")), 5);
}

#[test]
fn first_word_without_space() {
    assert_eq!(first_word(&String::from("hello")), 5);
    assert_eq!(first_word(&String::new()), 0);
}

#[test]
fn first_word_leading_space() {
    assert_eq!(first_word(&String::from(" x")), 0);
    assert_eq!(first_word(&String::from("a b c")), 1);
}

#[test]
fn first_word_counts_bytes() {
    assert_eq!(first_word(&String::from("héllo wörld")), 6);
}

#[test]
fn word_outlives_cleared_string() {
    let (word, s) = references_borrowing();
    assert_eq!(word, 5);
    assert!(s.is_empty());
}
