use profiles::create_profile::CreateProfileInput;
use profiles::email::Email;
use profiles::text::{check_edges, ends_with, is_match, starts_with, NAME_CHARS};

#[test]
fn prefixes_and_suffixes() {
    assert!(starts_with("https://a", "https://"));
    assert!(!starts_with("http:", "http://"));
    assert!(starts_with("abc", ""));
    assert!(ends_with("a.jpeg", ".jpeg"));
    assert!(!ends_with("a.jpeg", ".jpg"));
    assert!(!ends_with("g", ".png"));
    assert!(ends_with("ñ.gif", ".gif"));
}

#[test]
fn pattern_matching() {
    assert!(is_match(NAME_CHARS, "Anne-Marie Ève"));
    assert!(!is_match(NAME_CHARS, "Anne_Marie"));
    assert!(!is_match(NAME_CHARS, ""));
    // a pattern that does not compile matches nothing
    assert!(!is_match("(", "("));
}

#[test]
fn edge_characters() {
    assert!(check_edges("a1"));
    assert!(check_edges("é"));
    assert!(!check_edges(""));
    assert!(!check_edges("-a"));
    assert!(!check_edges("a "));
}

#[test]
fn lowercased_and_trimmed_email_scenario() {
    let mut input = CreateProfileInput {
        id: "abc".to_string(),
        email: "  USER@Example.com ".to_string(),
    };
    assert_eq!(input.normalize_and_validate(), Ok(()));
    let email = Email::new(input.email).unwrap();
    assert_eq!(email.as_ref(), "user@example.com");
}
