use team_bot::executor::actions::zulip::RequestError;
use team_bot::retry::{FetchAttempts, RetryStep, SendAttempts};

/// Runs the attempts to send a message whose outcomes are given, and tells the
/// pauses and the last outcome.
fn send(max_retries: u32, outcomes: &[bool]) -> (Vec<u64>, Result<(), RequestError>) {
    let mut pauses = vec![];
    let mut attempts = match SendAttempts::begin(max_retries) {
        Ok(attempts) => attempts,
        Err(error) => return (pauses, Err(error)),
    };
    for (index, outcome) in outcomes.iter().enumerate() {
        let result = if *outcome { Ok(()) } else { Err(RequestError::StatusCodeError(index as u16)) };
        match attempts.on_result(result) {
            RetryStep::Done(result) => return (pauses, result),
            RetryStep::Again(pause, next) => {
                pauses.push(pause);
                attempts = next;
            }
        }
    }
    panic!("the attempts did not end")
}

#[test]
fn first_success_ends_the_attempts() {
    assert!(matches!(send(3, &[true]), (pauses, Ok(())) if pauses.is_empty()));
    assert!(matches!(send(3, &[false, true]), (pauses, Ok(())) if pauses == [1]));
    assert!(matches!(send(3, &[false, false, true]), (pauses, Ok(())) if pauses == [1, 2]));
}

#[test]
fn last_failure_is_the_outcome() {
    assert!(matches!(
        send(4, &[false; 4]),
        (pauses, Err(RequestError::StatusCodeError(3))) if pauses == [1, 2, 4]
    ));
    assert!(matches!(
        send(1, &[false]),
        (pauses, Err(RequestError::StatusCodeError(0))) if pauses.is_empty()
    ));
}

#[test]
fn no_attempt_is_allowed() {
    assert!(matches!(send(0, &[]), (pauses, Err(RequestError::MaxRetriesExceeded)) if pauses.is_empty()));
}

#[test]
fn any_number_of_attempts_may_be_allowed() {
    assert!(matches!(send(u32::MAX, &[false, true]), (pauses, Ok(())) if pauses == [1]));
    let mut outcomes = [false; 65];
    outcomes[64] = true;
    assert!(matches!(send(1000, &outcomes), (pauses, Ok(())) if pauses.len() == 64));
}

#[test]
fn pauses_sum_up_to_a_power_of_two_less_one() {
    let (pauses, _) = send(65, &[false; 65]);
    assert_eq!(pauses.len(), 64);
    assert_eq!(pauses.last(), Some(&(1 << 63)));
    let mut sum: u128 = 0;
    for (count, pause) in pauses.iter().enumerate() {
        sum += *pause as u128;
        assert_eq!(sum, (1_u128 << (count + 1)) - 1);
    }
}

#[test]
fn a_build_status_is_asked_for_three_times() {
    let attempts = FetchAttempts::begin();
    let attempts = match attempts.on_result(Err::<u8, &str>("first")) {
        RetryStep::Again(2, next) => next,
        step => panic!("{:?}", step),
    };
    let attempts = match attempts.on_result(Err::<u8, &str>("second")) {
        RetryStep::Again(4, next) => next,
        step => panic!("{:?}", step),
    };
    assert!(matches!(attempts.on_result(Err::<u8, &str>("third")), RetryStep::Done(Err("third"))));
    assert!(matches!(
        FetchAttempts::begin().on_result(Ok::<u8, &str>(7)),
        RetryStep::Done(Ok(7))
    ));
}
