use idryos_auth::text::{after_prefix, or_empty, same_text, starts_with};

#[test]
fn prefixes() {
    assert!(starts_with("did:key:zabc", "did:key:"));
    assert!(starts_with("did:key:zabc", ""));
    assert!(starts_with("abc", "abc"));
    assert!(!starts_with("ab", "abc"));
    assert!(!starts_with("did:web:x", "did:key:"));
    assert!(starts_with("\u{e9}t\u{e9}", "\u{e9}t"));
}

#[test]
fn rest_after_a_prefix() {
    assert_eq!(after_prefix("did:key:zabc", "did:key:z"), "abc");
    assert_eq!(after_prefix("abc", "abc"), "");
    assert_eq!(after_prefix("\u{e9}t\u{e9}", "\u{e9}"), "t\u{e9}");
}

#[test]
fn equal_texts() {
    assert!(same_text("key", "key"));
    assert!(!same_text("key", "keys"));
    assert!(!same_text("key", "kez"));
    assert!(same_text("", ""));
}

#[test]
fn absent_text_is_empty() {
    assert_eq!(or_empty(&None), "");
    assert_eq!(or_empty(&Some("openid".to_string())), "openid");
}
