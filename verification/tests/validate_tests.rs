use agent_notifier::validate::{validate_notification_fields, ValidateError};

#[test]
fn empty_title_rejected() {
    let r = validate_notification_fields("", "content", "agent");
    assert_eq!(r, Err(ValidateError::MissingField));
}

#[test]
fn empty_content_rejected() {
    let r = validate_notification_fields("title", "", "agent");
    assert_eq!(r, Err(ValidateError::MissingField));
}

#[test]
fn empty_agent_rejected() {
    let r = validate_notification_fields("title", "content", "");
    assert_eq!(r, Err(ValidateError::MissingField));
}

#[test]
fn whitespace_only_title_rejected() {
    let r = validate_notification_fields("   \t\n  ", "content", "agent");
    assert_eq!(r, Err(ValidateError::MissingField));
}

#[test]
fn whitespace_only_content_rejected() {
    let r = validate_notification_fields("title", " \u{a0}\u{2003} ", "agent");
    assert_eq!(r, Err(ValidateError::MissingField));
}

#[test]
fn whitespace_only_agent_rejected() {
    let r = validate_notification_fields("title", "content", "\r\n");
    assert_eq!(r, Err(ValidateError::MissingField));
}

#[test]
fn fields_are_trimmed() {
    let r = validate_notification_fields("  hi  ", "\tthere\n", " ci ");
    let (t, c, a) = r.expect("trimmed fields should validate");
    assert_eq!(t, "hi");
    assert_eq!(c, "there");
    assert_eq!(a, "ci");
}

#[test]
fn content_at_limit_accepted() {
    let content = "x".repeat(950);
    let r = validate_notification_fields("t", &content, "a");
    let (_, c, _) = r.expect("content of exactly 950 characters should validate");
    assert_eq!(c.chars().count(), 950);
}

#[test]
fn content_over_limit_rejected() {
    let content = "x".repeat(951);
    let r = validate_notification_fields("t", &content, "a");
    assert_eq!(r, Err(ValidateError::ContentTooLong));
}

#[test]
fn content_limit_counts_characters_not_bytes() {
    // 950 two-byte characters: 1900 bytes, but within the character limit.
    let content = "\u{e9}".repeat(950);
    let r = validate_notification_fields("t", &content, "a");
    assert!(r.is_ok());

    let over = "\u{e9}".repeat(951);
    let r = validate_notification_fields("t", &over, "a");
    assert_eq!(r, Err(ValidateError::ContentTooLong));
}

#[test]
fn surrounding_whitespace_does_not_count_toward_limit() {
    let content = format!("   {}   ", "x".repeat(950));
    let r = validate_notification_fields("t", &content, "a");
    assert!(r.is_ok());
}

#[test]
fn error_messages() {
    assert_eq!(
        ValidateError::MissingField.message(),
        "'title', 'content', and 'agent' are required"
    );
    assert_eq!(
        ValidateError::ContentTooLong.message(),
        "'content' is too long; keep it under 950 characters"
    );
}
