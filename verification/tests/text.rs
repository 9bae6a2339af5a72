use baranki::text::{id_to_string, join3, natural_to_string, same_text, strip_prefix, worded};

#[test]
fn identifiers_are_written_in_decimal() {
    for id in [0, 1, 9, 10, 11, 99, 100, 12345, i32::MAX, -1, -9, -10, -2147483647, i32::MIN] {
        assert_eq!(id_to_string(id), id.to_string());
    }
    assert_eq!(id_to_string(i32::MIN), "-2147483648");
    assert_eq!(id_to_string(42), "42");
}

#[test]
fn naturals_are_written_in_decimal() {
    for n in [0u64, 5, 10, 109, 1_000_000, u32::MAX as u64, u64::MAX] {
        assert_eq!(natural_to_string(n), n.to_string());
    }
    assert_eq!(natural_to_string(u64::MAX), "18446744073709551615");
}

#[test]
fn prefix_is_stripped_by_characters() {
    assert_eq!(strip_prefix("Bearer abc", "Bearer "), Some("abc"));
    assert_eq!(strip_prefix("Bearer ", "Bearer "), Some(""));
    assert_eq!(strip_prefix("Bearer", "Bearer "), None);
    assert_eq!(strip_prefix("abc", ""), Some("abc"));
    assert_eq!(strip_prefix("", ""), Some(""));
    assert_eq!(strip_prefix("", "a"), None);
    assert_eq!(strip_prefix("\u{44f}\u{43a}\u{43e}\u{440}\u{44c}", "\u{44f}\u{43a}"), Some("\u{43e}\u{440}\u{44c}"));
    assert_eq!(strip_prefix("\u{44f}x", "\u{44e}"), None);
    assert_eq!(strip_prefix("xbc", "abc"), None);
}

#[test]
fn texts_are_compared_and_joined() {
    assert!(same_text("", ""));
    assert!(same_text("admin", "admin"));
    assert!(!same_text("admin", "Admin"));
    assert!(!same_text("admin", "admin "));
    assert_eq!(join3("a", "", "c"), "ac");
    assert_eq!(join3("No ", "such", " row"), "No such row");
    assert_eq!(worded("Image with id ", -3, " not found"), "Image with id -3 not found");
    assert_eq!(worded("", 0, ""), "0");
}
