use querent_synapse::querent::errors::{QuerentError, QuerentErrorCauseType};

#[test]
fn user_error_renders_with_user_prefix() {
    let e = QuerentError::user("bad input".to_string());
    assert_eq!(e.message, "bad input");
    assert!(matches!(e.cause, QuerentErrorCauseType::User(None)));
    assert!(e.backtrace().is_some());
    assert_eq!(e.to_display_string(), "User: bad input");
}

#[test]
fn internal_error_renders_with_internal_prefix() {
    let e = QuerentError::internal("broken".to_string());
    assert!(matches!(e.cause, QuerentErrorCauseType::Internal(None)));
    assert_eq!(e.to_display_string(), "Internal: broken");
    assert!(e.to_backtrace().is_some());
}

#[test]
fn internal_with_bt_keeps_what_it_is_given() {
    let e = QuerentError::internal_with_bt("x".to_string(), None);
    assert!(e.backtrace().is_none());
    assert!(matches!(e.cause, QuerentErrorCauseType::Internal(None)));
    assert!(e.to_backtrace().is_none());
}

#[test]
fn panic_with_and_without_reason() {
    let with = QuerentError::panic(Some("boom".to_string()));
    assert_eq!(with.message, "Unexpected panic. Reason: boom");
    assert!(matches!(with.cause, QuerentErrorCauseType::Internal(None)));
    let without = QuerentError::panic(None);
    assert_eq!(without.message, "Unexpected panic without reason");
    assert_eq!(without.to_display_string(), "Internal: Unexpected panic without reason");
}
