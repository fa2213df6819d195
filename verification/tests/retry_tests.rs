use libresy::retry::{run_retries, FinalOutcome, RetryAction, RetryController};
use libresy::sequencer::AttemptOutcome;

fn fail(detail: &str) -> AttemptOutcome {
    AttemptOutcome::RemoteFailure { detail: detail.to_string() }
}

#[test]
fn one_attempt_when_the_first_succeeds() {
    let outcomes = vec![AttemptOutcome::Success, fail("later"), fail("later")];
    let (result, invocations, sleeps) = run_retries(&outcomes, 3);
    assert!(matches!(result, FinalOutcome::Booked));
    assert_eq!(invocations, 1);
    assert_eq!(sleeps, 0);
}

#[test]
fn all_attempts_when_every_one_fails() {
    let outcomes = vec![fail("first"), fail("second"), fail("third")];
    let (result, invocations, sleeps) = run_retries(&outcomes, 3);
    match result {
        FinalOutcome::Exhausted { last: Some(AttemptOutcome::RemoteFailure { detail }) } => {
            assert_eq!(detail, "third");
        },
        _ => panic!("an exhausted run must report the last failure"),
    }
    assert_eq!(invocations, 3);
    // One pause between each pair of attempts, none after the last.
    assert_eq!(sleeps, 2);
}

#[test]
fn stops_in_the_middle_on_the_first_success() {
    let outcomes = vec![fail("first"), AttemptOutcome::Success, fail("unused")];
    let (result, invocations, sleeps) = run_retries(&outcomes, 3);
    assert!(matches!(result, FinalOutcome::Booked));
    assert_eq!(invocations, 2);
    assert_eq!(sleeps, 1);
}

#[test]
fn zero_allowance_makes_no_attempt() {
    let outcomes: Vec<AttemptOutcome> = Vec::new();
    let (result, invocations, sleeps) = run_retries(&outcomes, 0);
    assert!(matches!(result, FinalOutcome::Exhausted { last: None }));
    assert_eq!(invocations, 0);
    assert_eq!(sleeps, 0);
}

#[test]
fn non_success_outcomes_are_all_retried() {
    let outcomes = vec![
        AttemptOutcome::NoSlotsAvailable,
        AttemptOutcome::NoMatchingSlot,
        AttemptOutcome::NoPaymentMethod,
    ];
    let (result, invocations, sleeps) = run_retries(&outcomes, 3);
    match result {
        FinalOutcome::Exhausted { last: Some(AttemptOutcome::NoPaymentMethod) } => {},
        _ => panic!("the last outcome must come back after exhaustion"),
    }
    assert_eq!(invocations, 3);
    assert_eq!(sleeps, 2);
}

#[test]
fn controller_reports_attempt_numbers_one_indexed() {
    let mut rc = RetryController::new(2);
    match rc.next_action() {
        RetryAction::Attempt { number } => assert_eq!(number, 1),
        _ => panic!("a fresh controller must ask for attempt one"),
    }
    rc.record_outcome(fail("first"));
    assert!(rc.should_sleep());
    match rc.next_action() {
        RetryAction::Attempt { number } => assert_eq!(number, 2),
        _ => panic!("the second attempt must follow a failure"),
    }
    rc.record_outcome(fail("second"));
    assert!(!rc.should_sleep());
    match rc.next_action() {
        RetryAction::Finished { result } => {
            assert!(matches!(result, FinalOutcome::Exhausted { last: Some(_) }));
        },
        _ => panic!("an exhausted controller must finish"),
    }
}

#[test]
fn controller_never_sleeps_after_a_success() {
    let mut rc = RetryController::new(5);
    match rc.next_action() {
        RetryAction::Attempt { number } => assert_eq!(number, 1),
        _ => panic!("a fresh controller must ask for attempt one"),
    }
    rc.record_outcome(AttemptOutcome::Success);
    assert!(!rc.should_sleep());
    match rc.next_action() {
        RetryAction::Finished { result } => assert!(matches!(result, FinalOutcome::Booked)),
        _ => panic!("a success must finish the run"),
    }
}
