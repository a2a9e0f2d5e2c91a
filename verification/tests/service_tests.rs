use saya_core::service::{FinishHandle, RetryDecision, RetryPolicy, RetryState};

#[test]
fn finish_handle_lifecycle() {
    let mut fh = FinishHandle::new();
    assert!(!fh.is_shutdown_requested());
    fh.request_shutdown();
    assert!(fh.is_shutdown_requested());
    fh.finish();
    assert!(fh.finished);
    assert!(fh.is_shutdown_requested());
}

#[test]
fn retry_gives_up_exactly_on_budget_exhaustion() {
    let mut state = RetryState::new(RetryPolicy { max_attempts: 3, delay_secs: 2 });
    assert_eq!(state.on_failure(), RetryDecision::RetryAfterDelay { delay_secs: 2 });
    assert_eq!(state.on_failure(), RetryDecision::RetryAfterDelay { delay_secs: 2 });
    assert_eq!(state.on_failure(), RetryDecision::GiveUp);
}
