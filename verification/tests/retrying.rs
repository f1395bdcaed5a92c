use spanner_admin::retry::RetryPolicy;
use spanner_admin::retry::RetryState;
use spanner_admin::retry::RetryStep;
use spanner_admin::status::Status;
use spanner_admin::status::StatusCode;

fn unavailable(message: &str) -> Status {
    Status::new(StatusCode::Unavailable, message.to_string())
}

fn policy(max_attempts: u64) -> RetryPolicy {
    RetryPolicy { max_attempts, retryable_codes: vec![StatusCode::Unavailable] }
}

/// Replays a script of attempt outcomes through a retry state, counting the
/// attempts actually consumed, as the client's call loop does.
fn drive(
    policy: RetryPolicy,
    mut outcomes: Vec<Result<u64, Status>>,
) -> (Result<u64, Status>, usize) {
    let mut state = RetryState::new(policy);
    let mut attempts: usize = 0;
    loop {
        attempts += 1;
        match state.on_outcome(outcomes.remove(0)) {
            RetryStep::Done(result) => return (result, attempts),
            RetryStep::RetryAgain => {}
        }
    }
}

#[test]
fn retryable_failure_then_success_returns_the_success() {
    let outcomes = vec![Err(unavailable("flaky")), Ok(7)];
    let (result, attempts) = drive(policy(5), outcomes);
    assert_eq!(result, Ok(7));
    assert_eq!(attempts, 2);
    assert!(attempts <= 5);
}

#[test]
fn immediate_success_takes_one_attempt() {
    let (result, attempts) = drive(policy(5), vec![Ok(1)]);
    assert_eq!(result, Ok(1));
    assert_eq!(attempts, 1);
}

#[test]
fn exhausted_attempts_surface_last_error_unchanged() {
    let outcomes = vec![
        Err(unavailable("first")),
        Err(unavailable("second")),
        Err(unavailable("third")),
    ];
    let (result, attempts) = drive(policy(3), outcomes);
    assert_eq!(result, Err(unavailable("third")));
    assert_eq!(attempts, 3);
}

#[test]
fn non_retryable_failure_stops_at_once() {
    let denied = Status::new(StatusCode::PermissionDenied, "no".to_string());
    let (result, attempts) = drive(policy(5), vec![Err(denied.clone())]);
    assert_eq!(result, Err(denied));
    assert_eq!(attempts, 1);
}

#[test]
fn single_attempt_policy_never_retries() {
    let (result, attempts) = drive(policy(1), vec![Err(unavailable("once"))]);
    assert_eq!(result, Err(unavailable("once")));
    assert_eq!(attempts, 1);
}

#[test]
fn classification_follows_the_policy_codes() {
    let p = policy(3);
    assert!(p.is_retryable(StatusCode::Unavailable));
    assert!(!p.is_retryable(StatusCode::NotFound));
    assert!(!p.is_retryable(StatusCode::PermissionDenied));
}

#[test]
fn missing_policy_resolves_to_the_default() {
    let p = RetryPolicy::resolve(None);
    assert_eq!(p.max_attempts, 5);
    assert_eq!(p.retryable_codes, vec![StatusCode::Unavailable]);
}

#[test]
fn supplied_policy_resolves_to_itself() {
    let p = RetryPolicy::resolve(Some(policy(9)));
    assert_eq!(p.max_attempts, 9);
    assert_eq!(p.retryable_codes, vec![StatusCode::Unavailable]);
}
