use songrec::text::{chars_of, contains_chars, contains_text, decimal, matches_at, upper_hex};

#[test]
fn decimal_of_small_and_large_numbers() {
    assert_eq!(decimal(0), "0");
    assert_eq!(decimal(7), "7");
    assert_eq!(decimal(10), "10");
    assert_eq!(decimal(300), "300");
    assert_eq!(decimal(4294967295), "4294967295");
    assert_eq!(decimal(u64::MAX), "18446744073709551615");
}

#[test]
fn chars_of_keeps_every_character() {
    assert_eq!(chars_of("a-é"), vec!['a', '-', 'é']);
    assert_eq!(chars_of(""), Vec::<char>::new());
}

#[test]
fn substring_is_found_anywhere() {
    assert!(contains_text("process.id = \"42\"", "id = \"42"));
    assert!(contains_text("songrec", "songrec"));
    assert!(contains_text("xsongrec", "songrec"));
    assert!(contains_text("songrecx", "songrec"));
    assert!(!contains_text("songre", "songrec"));
    assert!(!contains_text("son grec", "songrec"));
    assert!(contains_text("anything", ""));
    assert!(contains_text("", ""));
    assert!(!contains_text("", "a"));
}

#[test]
fn substring_on_characters() {
    let hay = chars_of("héllo wörld");
    assert!(contains_chars(&hay, &chars_of("o wö")));
    assert!(!contains_chars(&hay, &chars_of("ow")));
    assert!(matches_at(&hay, &chars_of("llo"), 2));
    assert!(!matches_at(&hay, &chars_of("llo"), 1));
}

#[test]
fn upper_hex_capitalizes_letters_only() {
    assert_eq!(
        upper_hex("936da01f-9abd-4d9d-80c7-02af85c822a8"),
        Some("936DA01F-9ABD-4D9D-80C7-02AF85C822A8".to_string())
    );
    assert_eq!(upper_hex(""), Some(String::new()));
    assert_eq!(upper_hex("0123456789abcdef-"), Some("0123456789ABCDEF-".to_string()));
}

#[test]
fn upper_hex_refuses_other_characters() {
    assert_eq!(upper_hex("g"), None);
    assert_eq!(upper_hex("AB"), None);
    assert_eq!(upper_hex("12 34"), None);
}
