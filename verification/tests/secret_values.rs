use h2m_search::secret::SecretString;

#[test]
fn debug_is_redacted() {
    let s = SecretString::new("supersecret");
    assert_eq!(s.debug_text(), r#"SecretString("[REDACTED]")"#);
}

#[test]
fn display_is_redacted() {
    let s = SecretString::new("supersecret");
    assert_eq!(s.redacted(), "[REDACTED]");
}

#[test]
fn expose_returns_raw() {
    let s = SecretString::new("supersecret");
    assert_eq!(s.expose(), "supersecret");
}

#[test]
fn empty_detection_trims() {
    assert!(SecretString::new("").is_empty());
    assert!(SecretString::new("   ").is_empty());
    assert!(!SecretString::new("x").is_empty());
}

#[test]
fn secret_string_is_never_leaked() {
    let s = SecretString::new("hunter2");
    assert!(!s.debug_text().contains("hunter2"));
    assert!(!s.redacted().contains("hunter2"));
    assert_eq!(s.expose(), "hunter2");
}

#[test]
fn from_string_keeps_the_value() {
    let s = SecretString::from_string(String::from(" key "));
    assert_eq!(s.expose(), " key ");
    assert!(!s.is_empty());
}
