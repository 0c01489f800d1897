//! What a retry driver does with a handler's decisions.
//!
//! The driver invokes the upload. Invocations are numbered from one. When
//! invocation `n` fails, the driver asks the handler about attempt `n`: if
//! the handler gives up, the driver stops with the error; otherwise it waits
//! as told and invokes the upload once more. When an invocation succeeds,
//! the driver stops at once. This module states that course as a function of
//! which invocations fail, and proves how many invocations and waits it
//! takes.

use crate::backoff::{is_wait_for, lemma_wait_range};
use crate::put_object_handler::exhausted;
use vstd::prelude::*;

verus! {

/// How the driver's work on one upload ended.
pub struct Run {
    /// Whether the upload succeeded in the end.
    pub delivered: bool,
    /// How many times the upload was invoked.
    pub invocations: nat,
    /// How many times the driver waited before invoking again.
    pub waits: nat,
}

/// The driver's course from invocation `attempt` on, for a handler that
/// allows `max_attempts` retries, where `failing` holds the numbers of the
/// invocations that fail.
pub open spec fn run_from(max_attempts: nat, failing: Set<nat>, attempt: nat) -> Run
    recommends
        attempt >= 1,
    decreases max_attempts + 1 - attempt,
{
    if !failing.contains(attempt) {
        Run { delivered: true, invocations: attempt, waits: (attempt - 1) as nat }
    } else if exhausted(max_attempts, attempt) {
        Run { delivered: false, invocations: attempt, waits: (attempt - 1) as nat }
    } else {
        run_from(max_attempts, failing, attempt + 1)
    }
}

/// The driver's whole course: it begins with invocation one.
pub open spec fn run(max_attempts: nat, failing: Set<nat>) -> Run {
    run_from(max_attempts, failing, 1)
}

/// While every invocation from `attempt` up to `last` fails within the
/// budget, the course from `attempt` is the course from `last + 1`.
proof fn lemma_run_skips_failures(
    max_attempts: nat,
    failing: Set<nat>,
    attempt: nat,
    last: nat,
)
    requires
        attempt <= last + 1,
        last <= max_attempts,
        forall|n: nat| attempt <= n <= last ==> failing.contains(n),
    ensures
        run_from(max_attempts, failing, attempt) == run_from(max_attempts, failing, last + 1),
    decreases last + 1 - attempt,
{
    if attempt <= last {
        lemma_run_skips_failures(max_attempts, failing, attempt + 1, last);
    }
}

/// An upload that always fails is invoked once and retried until the budget
/// is spent: with a budget of `max_attempts` retries the driver makes
/// exactly `max_attempts + 1` invocations, waits `max_attempts` times, and
/// ends without success.
pub proof fn lemma_always_failing_run(max_attempts: nat, failing: Set<nat>)
    requires
        forall|n: nat| 1 <= n <= max_attempts + 1 ==> failing.contains(n),
    ensures
        run(max_attempts, failing) == (Run {
            delivered: false,
            invocations: max_attempts + 1,
            waits: max_attempts,
        }),
{
    lemma_run_skips_failures(max_attempts, failing, 1, max_attempts);
}

/// An upload that fails `failures` times, no more than the budget, and then
/// succeeds is invoked exactly `failures + 1` times: the driver waits once
/// after each failure, ends with success, and neither invokes nor waits
/// after that.
pub proof fn lemma_run_succeeds_after_failures(
    max_attempts: nat,
    failing: Set<nat>,
    failures: nat,
)
    requires
        failures <= max_attempts,
        forall|n: nat| 1 <= n <= failures ==> failing.contains(n),
        !failing.contains(failures + 1),
    ensures
        run(max_attempts, failing) == (Run {
            delivered: true,
            invocations: failures + 1,
            waits: failures,
        }),
{
    lemma_run_skips_failures(max_attempts, failing, 1, failures);
}

/// The sum of the waits of one run, in the order in which they were made.
pub open spec fn total_wait(waits: Seq<nat>) -> nat
    decreases waits.len(),
{
    if waits.len() == 0 {
        0
    } else {
        total_wait(waits.drop_last()) + waits.last()
    }
}

/// The waits of one run add up to no more than their number times the cap:
/// where the wait after the failure of each attempt, counted from one, is
/// one that the backoff policy may choose for that attempt, an upload that
/// is given up after `max_attempts` waits has waited no longer than
/// `max_attempts` times the cap.
pub proof fn lemma_total_wait(waits: Seq<nat>, base: nat, max: nat)
    requires
        forall|i: int|
            0 <= i < waits.len() ==> is_wait_for(#[trigger] waits[i], base, max, (i + 1) as nat),
    ensures
        total_wait(waits) <= waits.len() * max,
    decreases waits.len(),
{
    if waits.len() > 0 {
        let earlier = waits.drop_last();
        assert forall|i: int| 0 <= i < earlier.len() implies is_wait_for(
            #[trigger] earlier[i],
            base,
            max,
            (i + 1) as nat,
        ) by {
            assert(earlier[i] == waits[i]);
        }
        lemma_total_wait(earlier, base, max);
        lemma_wait_range(waits.last(), base, max, waits.len());
        assert(earlier.len() * max + max == waits.len() * max) by (nonlinear_arith)
            requires
                earlier.len() + 1 == waits.len(),
        ;
    }
}

} // verus!
