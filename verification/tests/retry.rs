use render_pool::retry::{
    is_browser_error, retry_decision, run_with_retry, OperationOutcome, RetryResult, RetryVerdict,
    MAX_ATTEMPTS,
};

#[test]
fn classifier_marks_each_transient_word() {
    assert!(is_browser_error("the browser went away"));
    assert!(is_browser_error("connection refused"));
    assert!(is_browser_error("channel closed"));
    assert!(is_browser_error("process terminated by signal"));
}

#[test]
fn classifier_ignores_ascii_case() {
    assert!(is_browser_error("BROWSER gone"));
    assert!(is_browser_error("Connection Reset"));
    assert!(is_browser_error("the pipe was CLOSED early"));
    assert!(is_browser_error("TeRmInAtEd"));
}

#[test]
fn classifier_rejects_everything_else() {
    assert!(!is_browser_error("file not found"));
    assert!(!is_browser_error(""));
    assert!(!is_browser_error("clos ed"));
    assert!(!is_browser_error("browse r"));
}

#[test]
fn decision_retries_only_transient_with_budget() {
    assert_eq!(retry_decision(0, true), RetryVerdict::Retry);
    assert_eq!(retry_decision(1, true), RetryVerdict::Retry);
    assert_eq!(retry_decision(2, true), RetryVerdict::GiveUp);
    assert_eq!(retry_decision(0, false), RetryVerdict::GiveUp);
    assert_eq!(retry_decision(1, false), RetryVerdict::GiveUp);
}

#[test]
fn two_transient_failures_then_success_costs_two_recreations() {
    let outcomes = vec![
        OperationOutcome::Failed("browser connection lost".to_string()),
        OperationOutcome::Failed("tab closed".to_string()),
        OperationOutcome::Succeeded,
    ];
    let (result, recreations) = run_with_retry(&outcomes);
    assert_eq!(result, RetryResult::Success(2));
    assert_eq!(recreations, 2);
}

#[test]
fn immediate_success_costs_nothing() {
    let outcomes = vec![
        OperationOutcome::Succeeded,
        OperationOutcome::Succeeded,
        OperationOutcome::Succeeded,
    ];
    let (result, recreations) = run_with_retry(&outcomes);
    assert_eq!(result, RetryResult::Success(0));
    assert_eq!(recreations, 0);
}

#[test]
fn permanent_failure_propagates_without_retry() {
    let outcomes = vec![
        OperationOutcome::Failed("disk full".to_string()),
        OperationOutcome::Succeeded,
        OperationOutcome::Succeeded,
    ];
    let (result, recreations) = run_with_retry(&outcomes);
    assert_eq!(result, RetryResult::Permanent(0));
    assert_eq!(recreations, 0);
}

#[test]
fn permanent_failure_after_one_retry() {
    let outcomes = vec![
        OperationOutcome::Failed("browser gone".to_string()),
        OperationOutcome::Failed("bad font data".to_string()),
        OperationOutcome::Succeeded,
    ];
    let (result, recreations) = run_with_retry(&outcomes);
    assert_eq!(result, RetryResult::Permanent(1));
    assert_eq!(recreations, 1);
}

#[test]
fn all_transient_failures_exhaust_the_budget() {
    let outcomes = vec![
        OperationOutcome::Failed("browser gone".to_string()),
        OperationOutcome::Failed("connection reset".to_string()),
        OperationOutcome::Failed("tab terminated".to_string()),
    ];
    assert_eq!(outcomes.len(), MAX_ATTEMPTS);
    let (result, recreations) = run_with_retry(&outcomes);
    // The last underlying cause comes attached.
    assert_eq!(result, RetryResult::Exhausted("tab terminated".to_string()));
    assert_eq!(recreations, 2);
}
