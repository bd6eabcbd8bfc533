use minifier_passes::text::{eq_lowercase, same_text, starts_with};

#[test]
fn same_text_compares_character_by_character() {
    assert!(same_text("", ""));
    assert!(same_text("iframe", "iframe"));
    assert!(!same_text("iframe", "Iframe"));
    assert!(!same_text("iframe", "iframes"));
    assert!(!same_text("a", ""));
}

#[test]
fn eq_lowercase_ignores_letter_case() {
    assert!(eq_lowercase("sandbox", "SANDBOX"));
    assert!(eq_lowercase("SandBox", "sAndbOx"));
    assert!(eq_lowercase("", ""));
    assert!(eq_lowercase("ÄB", "äb"));
    assert!(!eq_lowercase("sandbox", "sandbo"));
    assert!(!eq_lowercase("sandbox", "sand box"));
}

#[test]
fn starts_with_compares_the_leading_characters() {
    assert!(starts_with("aria-hidden", "aria-"));
    assert!(starts_with("aria-", "aria-"));
    assert!(starts_with("aria-", ""));
    assert!(starts_with("", ""));
    assert!(!starts_with("aria", "aria-"));
    assert!(!starts_with("abcaria-foo", "aria-"));
    assert!(!starts_with("Aria-hidden", "aria-"));
    assert!(!starts_with("", "a"));
    assert!(starts_with("ärger", "är"));
    assert!(!starts_with("ärger", "ar"));
}
