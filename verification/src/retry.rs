//! How often a failed request is repeated, and after how long.

use crate::executor::actions::zulip::RequestError;
use vstd::arithmetic::power2::{
    lemma2_to64, lemma2_to64_rest, lemma_pow2_strictly_increases, lemma_pow2_unfold, pow2,
};
use vstd::bits::lemma_u64_shl_is_mul;
use vstd::prelude::*;

verus! {

/// The greatest number of requests for a build status.
pub const FETCH_ATTEMPTS: u32 = 3;

/// The greatest number of pauses that are 64-bit numbers of seconds.
pub const MOST_PAUSES: u32 = 64;

/// What follows the outcome of an attempt.
#[derive(Debug)]
pub enum RetryStep<T, E, A> {
    /// The outcome is final.
    Done(Result<T, E>),
    /// Another attempt is made after a pause in seconds.
    Again(u64, A),
}

/// The attempts to send a message.
///
/// The first attempt is made at once. After a failed attempt the next one is
/// made after a pause, each pause twice as long as the one before, until the
/// greatest number of attempts is reached.
#[derive(Debug)]
pub struct SendAttempts {
    /// The failed attempts so far.
    attempt: u32,
    max_retries: u32,
}

impl SendAttempts {
    /// The failed attempts so far.
    pub closed spec fn failed(self) -> nat {
        self.attempt as nat
    }

    /// The greatest number of attempts.
    pub closed spec fn limit(self) -> nat {
        self.max_retries as nat
    }

    /// Another attempt may be made.
    pub open spec fn open(self) -> bool {
        self.failed() < self.limit()
    }

    /// Starts to count the attempts to send one message. It fails where no
    /// attempt is allowed.
    pub fn begin(max_retries: u32) -> (attempts: Result<SendAttempts, RequestError>)
        ensures
            match attempts {
                Ok(attempts) => attempts.open() && attempts.failed() == 0 && attempts.limit()
                    == max_retries,
                Err(error) => max_retries == 0 && error == RequestError::MaxRetriesExceeded,
            },
    {
        if max_retries == 0 {
            Err(RequestError::MaxRetriesExceeded)
        } else {
            Ok(SendAttempts { attempt: 0, max_retries })
        }
    }

    /// Decides what follows the outcome of an attempt.
    pub fn on_result(self, result: Result<(), RequestError>) -> (step: RetryStep<
        (),
        RequestError,
        SendAttempts,
    >)
        requires
            self.open(),
            is_final(result, self.failed(), self.limit()) || self.failed() < MOST_PAUSES,
        ensures
            match step {
                RetryStep::Done(outcome) => outcome == result && is_final(
                    result,
                    self.failed(),
                    self.limit(),
                ),
                RetryStep::Again(pause, attempts) => !is_final(
                    result,
                    self.failed(),
                    self.limit(),
                ) && pause == pow2(self.failed()) && attempts.failed() == self.failed() + 1
                    && attempts.limit() == self.limit() && attempts.open(),
            },
    {
        match result {
            Ok(value) => RetryStep::Done(Ok(value)),
            Err(error) => if self.attempt < self.max_retries - 1 {
                let pause: u64 = power_of_two(self.attempt as u64);
                RetryStep::Again(
                    pause,
                    SendAttempts { attempt: self.attempt + 1, max_retries: self.max_retries },
                )
            } else {
                RetryStep::Done(Err(error))
            },
        }
    }
}

/// The attempts to fetch a build status: at most three, with pauses of two and
/// four seconds.
#[derive(Debug)]
pub struct FetchAttempts {
    /// The failed attempts so far.
    attempts: u32,
}

impl FetchAttempts {
    /// The failed attempts so far.
    pub closed spec fn failed(self) -> nat {
        self.attempts as nat
    }

    /// Another attempt may be made.
    pub open spec fn open(self) -> bool {
        self.failed() < FETCH_ATTEMPTS
    }

    /// Starts to count the attempts of one request.
    pub fn begin() -> (attempts: FetchAttempts)
        ensures
            attempts.open(),
            attempts.failed() == 0,
    {
        FetchAttempts { attempts: 0 }
    }

    /// Decides what follows the outcome of an attempt.
    pub fn on_result<T, E>(self, result: Result<T, E>) -> (step: RetryStep<T, E, FetchAttempts>)
        requires
            self.open(),
        ensures
            match step {
                RetryStep::Done(outcome) => outcome == result && is_final(
                    result,
                    self.failed(),
                    FETCH_ATTEMPTS as nat,
                ),
                RetryStep::Again(pause, attempts) => !is_final(
                    result,
                    self.failed(),
                    FETCH_ATTEMPTS as nat,
                ) && pause == pow2(self.failed() + 1) && attempts.failed() == self.failed() + 1
                    && attempts.open(),
            },
    {
        match result {
            Ok(value) => RetryStep::Done(Ok(value)),
            Err(error) => if self.attempts < FETCH_ATTEMPTS - 1 {
                let attempts: u32 = self.attempts + 1;
                RetryStep::Again(power_of_two(attempts as u64), FetchAttempts { attempts })
            } else {
                RetryStep::Done(Err(error))
            },
        }
    }
}

/// Two to the power of `exponent`.
fn power_of_two(exponent: u64) -> (power: u64)
    requires
        exponent < 64,
    ensures
        power == pow2(exponent as nat),
{
    proof {
        lemma2_to64();
        lemma2_to64_rest();
        if exponent < 63 {
            lemma_pow2_strictly_increases(exponent as nat, 63);
        }
        lemma_u64_shl_is_mul(1, exponent);
    }
    1u64 << exponent
}

// ---------------------------------------------------------------------------
// Whole runs
// ---------------------------------------------------------------------------

/// Whether the outcome of the attempt after `failed` failures is the last one:
/// it is a success, or no further attempt is allowed.
pub open spec fn is_final<T, E>(result: Result<T, E>, failed: nat, limit: nat) -> bool {
    result is Ok || failed + 1 >= limit
}

/// How many attempts are made where the attempts end as in `outcomes` and
/// `failed` of them have failed already.
pub open spec fn attempts_made<T, E>(
    outcomes: Seq<Result<T, E>>,
    failed: nat,
    limit: nat,
) -> nat
    decreases limit - failed,
{
    if is_final(outcomes[failed as int], failed, limit) {
        failed + 1
    } else {
        attempts_made(outcomes, failed + 1, limit)
    }
}

/// The pauses before the attempt that follows `failures` failures to send a
/// message, together.
pub open spec fn total_pause(failures: nat) -> nat
    decreases failures,
{
    if failures == 0 {
        0
    } else {
        total_pause((failures - 1) as nat) + pow2((failures - 1) as nat)
    }
}

/// At least one attempt is made and never more than allowed. The run ends with
/// the first success, or else with the last attempt allowed; every attempt
/// before has failed. So the run succeeds exactly when one of the attempts
/// allowed would.
pub proof fn law_attempts_stop_at_the_first_success<T, E>(
    outcomes: Seq<Result<T, E>>,
    failed: nat,
    limit: nat,
)
    requires
        failed < limit,
    ensures
        failed < attempts_made(outcomes, failed, limit) <= limit,
        forall|i: int|
            failed <= i < attempts_made(outcomes, failed, limit) - 1 ==> (
            #[trigger] outcomes[i]) is Err,
        outcomes[attempts_made(outcomes, failed, limit) - 1] is Ok || attempts_made(
            outcomes,
            failed,
            limit,
        ) == limit,
        outcomes[attempts_made(outcomes, failed, limit) - 1] is Ok <==> exists|i: int|
            failed <= i < limit && (#[trigger] outcomes[i]) is Ok,
    decreases limit - failed,
{
    if !is_final(outcomes[failed as int], failed, limit) {
        law_attempts_stop_at_the_first_success(outcomes, failed + 1, limit);
        if exists|i: int| failed <= i < limit && (#[trigger] outcomes[i]) is Ok {
            let i = choose|i: int| failed <= i < limit && (#[trigger] outcomes[i]) is Ok;
            assert(i != failed);
        }
    }
}

/// The pauses of a message double: before the attempt that follows `failures`
/// failures, two to that power less one second have been waited in all.
pub proof fn law_total_pause(failures: nat)
    ensures
        total_pause(failures) == pow2(failures) - 1,
    decreases failures,
{
    lemma2_to64();
    if failures > 0 {
        law_total_pause((failures - 1) as nat);
        lemma_pow2_unfold(failures);
    }
}

} // verus!
