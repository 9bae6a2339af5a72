use baranki::validation::{valid_file_name, valid_password, valid_resource_name, valid_username};
use regex::Regex;

fn samples() -> Vec<String> {
    let mut all: Vec<String> = vec![
        "", "a", "ab", "abc", "JohnDoe", "user", "admin", "john doe", "john-doe", "john_doe", "___",
        "abc\n", "\nabc", " abc", "abc ", "Secret15", "Muzion15", "12345", "1234567", "12345678",
        "p@ssw0rd!", "p@ssw0rd!#$%^&*", "p@ssw0rd!#$%^&*(", "pass word1", "password-1", "password=1",
        "(password)", "+plus+plus", "\u{41a}\u{440}\u{443}\u{433}\u{43b}\u{44b}\u{435}", "caf\u{e9}caf\u{e9}",
        "\u{ff41}\u{ff42}\u{ff43}", "abc\0", "tab\tname", "UPPER_lower_09", "a.b.c", "name.jpg",
    ]
    .into_iter()
    .map(String::from)
    .collect();
    for length in [2, 3, 7, 8, 15, 16, 24, 25, 26, 40] {
        all.push("a".repeat(length));
        all.push("Z9_".repeat(length).chars().take(length).collect());
        all.push("!".repeat(length));
    }
    all
}

#[test]
fn username_agrees_with_its_pattern() {
    let pattern = Regex::new(r"^[a-zA-Z0-9_]{3,25}$").unwrap();
    for text in samples() {
        assert_eq!(valid_username(&text), pattern.is_match(&text), "{:?}", text);
    }
}

#[test]
fn password_agrees_with_its_pattern() {
    let pattern = Regex::new(r"^[a-zA-Z0-9!@#$%^&*()_+]{8,15}$").unwrap();
    for text in samples() {
        assert_eq!(valid_password(&text), pattern.is_match(&text), "{:?}", text);
    }
}

#[test]
fn file_name_agrees_with_its_pattern() {
    let pattern = Regex::new(r"^[a-zA-Z0-9_]{3,25}$").unwrap();
    for text in samples() {
        assert_eq!(valid_file_name(&text), pattern.is_match(&text), "{:?}", text);
    }
}

#[test]
fn username_has_three_to_twenty_five_word_characters() {
    assert!(valid_username("abc"));
    assert!(valid_username("JohnDoe"));
    assert!(valid_username(&"x".repeat(25)));
    assert!(!valid_username("ab"));
    assert!(!valid_username(&"x".repeat(26)));
    assert!(!valid_username("john doe"));
    assert!(!valid_username("john-doe"));
    assert!(!valid_username("abc\n"));
}

#[test]
fn password_has_eight_to_fifteen_characters() {
    assert!(valid_password("Secret15"));
    assert!(valid_password("!@#$%^&*()_+aZ9"));
    assert!(!valid_password("12345"));
    assert!(!valid_password("Secret1"));
    assert!(!valid_password("Secret15Secret15"));
    assert!(!valid_password("Secret 15"));
    assert!(!valid_password("Secret-15"));
}

#[test]
fn resource_name_counts_characters_not_bytes() {
    assert!(valid_resource_name("abc"));
    assert!(valid_resource_name("a c"));
    assert!(valid_resource_name("\u{41a}\u{440}\u{443}"));
    assert!(!valid_resource_name("\u{41a}\u{440}"));
    assert!(!valid_resource_name("ab"));
    assert!(!valid_resource_name(""));
    assert!(valid_resource_name("Test Product"));
}
