use coeus_oracle::text::{join2, join3, same_text, signed_text, unsigned_text};

#[test]
fn decimal_text_of_unsigned_numbers() {
    for n in [0u64, 1, 9, 10, 11, 99, 100, 101, 1000, 65535, 4294967296, u64::MAX - 1, u64::MAX] {
        assert_eq!(unsigned_text(n), n.to_string());
    }
    assert_eq!(unsigned_text(18446744073709551615), "18446744073709551615");
}

#[test]
fn decimal_text_of_signed_numbers() {
    for n in [0i64, 1, -1, 9, -9, 10, -10, 255, 256, -42, i64::MAX, i64::MIN, i64::MIN + 1] {
        assert_eq!(signed_text(n), n.to_string());
    }
    assert_eq!(signed_text(-9223372036854775808), "-9223372036854775808");
}

#[test]
fn texts_are_joined_in_order() {
    assert_eq!(join2("ab", "cd"), "abcd");
    assert_eq!(join2("", "x"), "x");
    assert_eq!(join2("x", ""), "x");
    assert_eq!(join3("a", "b", "c"), "abc");
    assert_eq!(join3("\u{e9}", "", "\u{1f600}"), "\u{e9}\u{1f600}");
}

#[test]
fn texts_are_the_same_when_their_characters_are() {
    assert!(same_text("true", "true"));
    assert!(same_text("", ""));
    assert!(!same_text("true", "True"));
    assert!(!same_text("true", "true "));
    assert!(!same_text("a", ""));
}
