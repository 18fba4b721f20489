use sockview::text::{contains, decimal, to_chars};

#[test]
fn decimal_numerals() {
    assert_eq!(decimal(0), "0");
    assert_eq!(decimal(7), "7");
    assert_eq!(decimal(10), "10");
    assert_eq!(decimal(200), "200");
    assert_eq!(decimal(4294967295), "4294967295");
    assert_eq!(decimal(u64::MAX), "18446744073709551615");
}

#[test]
fn decimal_agrees_with_the_standard_numeral() {
    for n in [0u64, 1, 9, 10, 11, 99, 100, 101, 12345, 1 << 32, u64::MAX - 1] {
        assert_eq!(decimal(n), n.to_string());
    }
}

#[test]
fn contains_finds_parts_anywhere() {
    assert!(contains("127.0.0.1", "127"));
    assert!(contains("127.0.0.1", "0.0"));
    assert!(contains("127.0.0.1", ".1"));
    assert!(contains("127.0.0.1", "127.0.0.1"));
    assert!(!contains("127.0.0.1", "127.0.0.11"));
    assert!(!contains("127.0.0.1", "2.7"));
    assert!(!contains("", "a"));
}

#[test]
fn empty_text_is_part_of_every_text() {
    assert!(contains("abc", ""));
    assert!(contains("", ""));
}

#[test]
fn contains_keeps_case() {
    assert!(contains("ESTABLISHED", "LISH"));
    assert!(!contains("ESTABLISHED", "lish"));
}

#[test]
fn contains_works_on_characters() {
    assert!(contains("grüße", "üß"));
    assert!(!contains("grüße", "us"));
}

#[test]
fn to_chars_lists_characters() {
    assert_eq!(to_chars("aß✓"), vec!['a', 'ß', '✓']);
    assert_eq!(to_chars(""), Vec::<char>::new());
}
