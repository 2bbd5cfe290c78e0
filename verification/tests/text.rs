use dafoerum::text::{begins_with, render_decimal, same_text};

#[test]
fn numbers_in_decimal() {
    assert_eq!(render_decimal(0), "0");
    assert_eq!(render_decimal(7), "7");
    assert_eq!(render_decimal(10), "10");
    assert_eq!(render_decimal(999), "999");
    assert_eq!(render_decimal(1_000), "1000");
    assert_eq!(render_decimal(1_234_567_890), "1234567890");
    assert_eq!(render_decimal(u32::MAX), "4294967295");
    for n in [1u32, 9, 11, 99, 100, 101, 4_000_000_000] {
        assert_eq!(render_decimal(n), n.to_string());
    }
}

#[test]
fn texts_are_compared_by_their_characters() {
    assert!(same_text("post", "post"));
    assert!(!same_text("post", "posts"));
    assert!(!same_text("post", "Post"));
    assert!(same_text("", ""));
    assert!(same_text("größer", "größer"));
    assert!(!same_text("großer", "größer"));
}

#[test]
fn beginnings_of_texts() {
    assert!(begins_with("/forum/3", "/forum"));
    assert!(begins_with("/forum", "/forum"));
    assert!(begins_with("/forum", ""));
    assert!(begins_with("", ""));
    assert!(!begins_with("/foru", "/forum"));
    assert!(!begins_with("", "a"));
    assert!(!begins_with("/Forum", "/forum"));
    assert!(begins_with("ärger", "är"));
    assert!(!begins_with("arger", "är"));
}
