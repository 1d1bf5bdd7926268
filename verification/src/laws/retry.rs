//! Laws of repeated attempts.

use crate::executor::actions::zulip::RequestError;
use crate::retry::{FetchAttempts, RetryStep, SendAttempts};
use vstd::arithmetic::power2::{lemma2_to64, lemma_pow2_unfold, pow2};
use vstd::prelude::*;

verus! {

/// Attempts to send a message can be made unless none is allowed, and none of
/// them has failed at first.
pub proof fn law_attempts_begin(max_retries: u32, attempts: Result<SendAttempts, RequestError>)
    requires
        call_ensures(SendAttempts::begin, (max_retries,), attempts),
    ensures
        max_retries == 0 ==> attempts == Err::<SendAttempts, RequestError>(
            RequestError::MaxRetriesExceeded,
        ),
        max_retries > 0 ==> (attempts matches Ok(attempts) && attempts.failed() == 0
            && attempts.limit() == max_retries),
{
}

/// A success is final. A failure is final only if as many attempts as allowed have
/// failed; before that it is counted, and another attempt follows.
pub proof fn law_attempt_to_send(
    attempts: SendAttempts,
    result: Result<(), RequestError>,
    step: RetryStep<(), RequestError, SendAttempts>,
)
    requires
        attempts.failed() < attempts.limit(),
        call_ensures(SendAttempts::on_result, (attempts, result), step),
    ensures
        result is Ok ==> step is Done && step->Done_0 is Ok,
        result is Err && attempts.failed() + 1 == attempts.limit() ==> step == RetryStep::<
            (),
            RequestError,
            SendAttempts,
        >::Done(result),
        result is Err && attempts.failed() + 1 < attempts.limit() ==> (step matches RetryStep::Again(
            _,
            next,
        ) && next.failed() == attempts.failed() + 1 && next.limit() == attempts.limit()),
{
}

/// The first pause between attempts to send is one second, and each is twice as
/// long as the one before.
pub proof fn law_pauses_double(
    attempts: SendAttempts,
    first: Result<(), RequestError>,
    pause: u64,
    next: SendAttempts,
    second: Result<(), RequestError>,
    next_pause: u64,
    last: SendAttempts,
)
    requires
        attempts.failed() < attempts.limit(),
        call_ensures(SendAttempts::on_result, (attempts, first), RetryStep::Again(pause, next)),
        call_ensures(SendAttempts::on_result, (next, second), RetryStep::Again(next_pause, last)),
    ensures
        attempts.failed() == 0 ==> pause == 1,
        next_pause == 2 * pause,
{
    lemma2_to64();
    lemma_pow2_unfold(attempts.failed() + 1);
}

/// A build status is asked for three times at most, after pauses of two and four
/// seconds; a success, or the third failure, is final.
pub proof fn law_attempts_to_fetch<T, E>(
    begun: FetchAttempts,
    attempts: FetchAttempts,
    result: Result<T, E>,
    step: RetryStep<T, E, FetchAttempts>,
)
    requires
        call_ensures(FetchAttempts::begin, (), begun),
        attempts.failed() < 3,
        call_ensures(FetchAttempts::on_result, (attempts, result), step),
    ensures
        begun.failed() == 0,
        result is Ok || attempts.failed() == 2 ==> step == RetryStep::<T, E, FetchAttempts>::Done(
            result,
        ),
        result is Err && attempts.failed() < 2 ==> (step matches RetryStep::Again(pause, next)
            && next.failed() == attempts.failed() + 1 && pause == (if attempts.failed() == 0 {
            2int
        } else {
            4
        })),
{
    lemma2_to64();
}

} // verus!
