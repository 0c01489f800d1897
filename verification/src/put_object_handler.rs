//! The handler that decides, after each failed upload attempt of one frame,
//! whether to wait and try again or to give up.
//!
//! A retry driver calls the upload; when the upload fails it asks the handler
//! with the number of the attempt that failed, counted from one. The handler
//! answers with a wait drawn by the backoff policy while the attempt is
//! within the budget, and hands the error back once it is not.

use crate::backoff::{
    capped_wait, draw_limit, is_wait_for, jittered, jittered_wait, lemma_capped_wait_bounds,
    BackoffPolicy, JITTER_BASE_NANOS, JITTER_MAX_NANOS,
};
use crate::decimal::{decimal, push_decimal};
use rand::rngs::{OsRng, StdRng};
use rand::{Rng, SeedableRng};
use vstd::prelude::*;

verus! {

/// `rand::rngs::StdRng`, the random number generator that the handler draws
/// its jitter from. Nothing is known of its state.
#[verifier::external_type_specification]
#[verifier::external_body]
pub struct ExStdRng(StdRng);

/// `rand::Error`, the error with which a source of random bytes reports that
/// it has none to give.
#[verifier::external_type_specification]
#[verifier::external_body]
pub struct ExRandError(rand::Error);

/// Calls `rand::SeedableRng::from_rng` for a `StdRng` on `rand::rngs::OsRng`:
/// a generator seeded from the operating system, or the error of the
/// operating system's source where it gives no seed. Nothing is claimed of
/// either.
#[verifier::external_body]
fn entropy_rng() -> (seeded: Result<StdRng, rand::Error>) {
    StdRng::from_rng(OsRng)
}

/// Calls `rand::Rng::gen_range` with the bounds zero and `high`. The claim is
/// the one of its documentation: the number lies in the range from the low
/// bound, inclusive, to the high bound, exclusive. The call panics on an
/// empty range, which `requires` leaves out.
#[verifier::external_body]
fn draw_below(rng: &mut StdRng, high: u128) -> (draw: u128)
    requires
        0 < high,
    ensures
        draw < high,
{
    rng.gen_range(0, high)
}

/// What a handler decided about a failed attempt.
#[derive(Clone, Debug, PartialEq, Eq)]
pub enum RetryDecision<E> {
    /// Try again after this many nanoseconds.
    WaitRetry(u64),
    /// Give up; the error of the last attempt is handed back.
    ForwardError(E),
}

/// What a handler is made of, but for the state of its random number
/// generator.
pub struct HandlerView {
    pub max_attempts: nat,
    pub frame_num: nat,
    pub jitter_base: nat,
    pub jitter_max: nat,
}

impl HandlerView {
    /// The capped wait of the handler's backoff policy for an attempt.
    pub open spec fn capped(self, attempt: nat) -> nat {
        capped_wait(self.jitter_base, self.jitter_max, attempt)
    }

    /// Whether `wait` is one of the waits that the handler's backoff policy
    /// may choose for an attempt.
    pub open spec fn may_wait(self, wait: nat, attempt: nat) -> bool {
        is_wait_for(wait, self.jitter_base, self.jitter_max, attempt)
    }
}

/// Whether the retry budget is spent at the failure of attempt `attempt`.
pub open spec fn exhausted(max_attempts: nat, attempt: nat) -> bool {
    attempt > max_attempts
}

/// The diagnostic record of a failed attempt, in words: the frame, the
/// attempt and the budget of retries, and the error. The record of an attempt
/// beyond the budget says that the attempts are exhausted.
pub open spec fn attempt_record_text(
    frame_num: nat,
    attempt: nat,
    max_attempts: nat,
    error: Seq<char>,
) -> Seq<char> {
    if exhausted(max_attempts, attempt) {
        "Attempts exhausted uploading frame "@ + decimal(frame_num) + " at attempt "@ + decimal(
            attempt,
        ) + "/"@ + decimal(max_attempts) + ". Error: "@ + error
    } else {
        "Frame "@ + decimal(frame_num) + " Attempt "@ + decimal(attempt) + "/"@ + decimal(
            max_attempts,
        ) + " has failed. Error: "@ + error
    }
}

/// Writes the diagnostic record of the failure of attempt `attempt`, counted
/// from one, of the upload of frame `frame_num`, under a budget of
/// `max_attempts` retries, with `error`.
pub fn attempt_record(frame_num: u64, attempt: usize, max_attempts: usize, error: &str) -> (record:
    String)
    ensures
        record@ == attempt_record_text(
            frame_num as nat,
            attempt as nat,
            max_attempts as nat,
            error@,
        ),
{
    let gives_up: bool = attempt > max_attempts;
    let mut record: String = if gives_up {
        String::from_str("Attempts exhausted uploading frame ")
    } else {
        String::from_str("Frame ")
    };
    push_decimal(&mut record, frame_num);
    if gives_up {
        record.append(" at attempt ");
    } else {
        record.append(" Attempt ");
    }
    push_decimal(&mut record, attempt as u64);
    record.append("/");
    push_decimal(&mut record, max_attempts as u64);
    if gives_up {
        record.append(". Error: ");
    } else {
        record.append(" has failed. Error: ");
    }
    record.append(error);
    record
}

/// Decides on the failed attempts of one frame's upload.
pub struct PutObjectHandler {
    max_attempts: usize,
    frame_num: u64,
    policy: BackoffPolicy,
    rng: StdRng,
}

impl View for PutObjectHandler {
    type V = HandlerView;

    closed spec fn view(&self) -> HandlerView {
        HandlerView {
            max_attempts: self.max_attempts as nat,
            frame_num: self.frame_num as nat,
            jitter_base: self.policy.base(),
            jitter_max: self.policy.max(),
        }
    }
}

impl PutObjectHandler {
    /// A handler for the upload of frame `frame_num` that allows
    /// `max_attempts` retries, with a generator seeded from the operating
    /// system. There is no handler where the operating system gives no seed.
    pub fn new(max_attempts: usize, frame_num: u64) -> (handler: Option<Self>)
        ensures
            handler matches Some(h) ==> h@ == (HandlerView {
                max_attempts: max_attempts as nat,
                frame_num: frame_num as nat,
                jitter_base: JITTER_BASE_NANOS as nat,
                jitter_max: JITTER_MAX_NANOS as nat,
            }),
    {
        match entropy_rng() {
            Ok(rng) => Some(Self::with_rng(max_attempts, frame_num, rng)),
            Err(_) => None,
        }
    }

    /// A handler as `new` makes it, but drawing from the generator given.
    pub fn with_rng(max_attempts: usize, frame_num: u64, rng: StdRng) -> (handler: Self)
        ensures
            handler@ == (HandlerView {
                max_attempts: max_attempts as nat,
                frame_num: frame_num as nat,
                jitter_base: JITTER_BASE_NANOS as nat,
                jitter_max: JITTER_MAX_NANOS as nat,
            }),
    {
        PutObjectHandler { max_attempts, frame_num, policy: BackoffPolicy::standard(), rng }
    }

    /// The number of retries that the handler allows.
    pub fn max_attempts(&self) -> (n: usize)
        ensures
            n == self@.max_attempts,
    {
        self.max_attempts
    }

    /// The sequence number of the frame whose upload the handler watches.
    pub fn frame_num(&self) -> (n: u64)
        ensures
            n == self@.frame_num,
    {
        self.frame_num
    }

    /// The wait, in nanoseconds, before the retry that follows the failure of
    /// attempt `attempt`: one of the waits of the backoff policy, so at
    /// least half of the capped wait and less than the capped wait and the
    /// cap. Only the generator's state changes.
    pub fn jitter(&mut self, attempt: usize) -> (wait: u64)
        ensures
            final(self)@ == old(self)@,
            old(self)@.may_wait(wait as nat, attempt as nat),
            old(self)@.capped(attempt as nat) / 2 <= wait < old(self)@.capped(attempt as nat),
            wait < old(self)@.jitter_max,
    {
        let temp: u64 = self.policy.capped(attempt);
        let draw: u128 = draw_below(&mut self.rng, draw_limit(temp));
        let wait: u64 = jittered(temp, draw);
        proof {
            assert(wait as nat == jittered_wait(temp as nat, draw as nat));
            lemma_capped_wait_bounds(self.policy.base(), self.policy.max(), attempt as nat);
        }
        wait
    }

    /// Decides on the failure of attempt `attempt`, counted from one, with
    /// `error`. Once the attempt is beyond the budget the error is handed
    /// back; until then the answer is a wait as `jitter` draws it.
    pub fn handle<E>(&mut self, attempt: usize, error: E) -> (decision: RetryDecision<E>)
        ensures
            final(self)@ == old(self)@,
            exhausted(old(self)@.max_attempts, attempt as nat) ==> decision
                == RetryDecision::ForwardError(error),
            !exhausted(old(self)@.max_attempts, attempt as nat) ==> (decision matches
                RetryDecision::WaitRetry(wait) && old(self)@.may_wait(wait as nat, attempt as nat)),
    {
        if attempt > self.max_attempts {
            RetryDecision::ForwardError(error)
        } else {
            RetryDecision::WaitRetry(self.jitter(attempt))
        }
    }
}

} // verus!
