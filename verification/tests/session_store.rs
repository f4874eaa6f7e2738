use client_lib::login::error::LoginError;
use client_lib::session::{login_granted, login_record, login_record_at, LoginRecord, SessionState};

#[test]
fn new_session_is_empty() {
    let state: SessionState<String, u32> = SessionState::new();
    assert!(!state.is_logged_in());
    assert_eq!(state.user_info(), None);
    assert!(!state.is_monitoring());
    let seen = state.snapshot();
    assert!(!seen.is_logged_in);
    assert_eq!(seen.user_info, None);
}

#[test]
fn logout_after_authentication_clears_everything() {
    let mut state: SessionState<String, u32> = SessionState::new();
    state.set_authenticated("alice".to_string());
    for _ in 0..3 {
        let seen = state.snapshot();
        assert!(seen.is_logged_in);
        assert_eq!(seen.user_info, Some(&"alice".to_string()));
    }
    assert_eq!(state.logout(), None);
    let seen = state.snapshot();
    assert!(!seen.is_logged_in);
    assert_eq!(seen.user_info, None);
    assert!(!state.is_monitoring());
}

#[test]
fn logout_hands_back_the_handle() {
    let mut state: SessionState<String, u32> = SessionState::new();
    state.set_authenticated("alice".to_string());
    assert_eq!(state.attach_cancellation_handle(41), None);
    assert!(state.is_monitoring());
    assert_eq!(state.cancellation_handle(), Some(&41));
    assert!(state.is_logged_in());
    assert_eq!(state.logout(), Some(41));
    assert!(!state.is_logged_in());
    assert_eq!(state.user_info(), None);
    assert!(!state.is_monitoring());
    assert_eq!(state.cancellation_handle(), None);
    assert_eq!(state.logout(), None);
}

#[test]
fn attaching_replaces_the_previous_handle() {
    let mut state: SessionState<String, u32> = SessionState::new();
    assert_eq!(state.attach_cancellation_handle(1), None);
    assert_eq!(state.attach_cancellation_handle(2), Some(1));
    assert_eq!(state.logout(), Some(2));
}

#[test]
fn status_can_be_set_by_the_shell() {
    let mut state: SessionState<String, u32> = SessionState::new();
    assert_eq!(state.attach_cancellation_handle(9), None);
    state.set_login_status(true, Some("bob".to_string()));
    assert!(state.is_logged_in());
    assert_eq!(state.user_info(), Some(&"bob".to_string()));
    assert!(state.is_monitoring());
    state.set_login_status(false, None);
    assert!(!state.is_logged_in());
    assert_eq!(state.user_info(), None);
    assert!(state.is_monitoring());
    state.set_authenticated("carol".to_string());
    assert_eq!(state.user_info(), Some(&"carol".to_string()));
    assert!(state.is_monitoring());
}

#[test]
fn only_a_grant_counts_as_login() {
    assert!(login_granted(&Ok((true, 5))));
    assert!(!login_granted(&Ok((false, 5))));
    assert!(!login_granted(&Err(LoginError::AlreadyExpired)));
    assert!(!login_granted(&Err(LoginError::Rejected("no".to_string()))));
}

#[test]
fn record_is_made_only_for_a_grant() {
    assert_eq!(
        login_record_at("VALID1", &Ok((true, 32472144000)), 1_700_000_000),
        Some(LoginRecord {
            password: "VALID1".to_string(),
            expiration_timestamp: 32472144000,
            login_time: 1_700_000_000,
        })
    );
    assert_eq!(login_record_at("VALID1", &Ok((false, 5)), 0), None);
    assert_eq!(login_record_at("VALID1", &Err(LoginError::MissingCardInfo), 0), None);
    let stamped = login_record("VALID1", &Ok((true, 9))).unwrap();
    assert_eq!(stamped.password, "VALID1");
    assert_eq!(stamped.expiration_timestamp, 9);
    assert!(stamped.login_time > 1_600_000_000);
    assert_eq!(login_record("VALID1", &Err(LoginError::AlreadyExpired)), None);
}
