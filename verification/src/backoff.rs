//! Backoff policy: how long to wait before a retry.
//!
//! The wait grows exponentially with the attempt count, from a base unit up
//! to a cap, and is then jittered: half of the capped wait is always kept,
//! and a random number of whole milliseconds below the other half is added.
//! All waits are in nanoseconds.

use vstd::arithmetic::power2::*;
use vstd::prelude::*;

verus! {

/// Nanoseconds in one millisecond.
pub const NANOS_PER_MILLI: u64 = 1_000_000;

/// The wait that attempt zero is capped from: 5 ms.
pub const JITTER_BASE_NANOS: u64 = 5_000_000;

/// The longest capped wait: 32 s.
pub const JITTER_MAX_NANOS: u64 = 32_000_000_000;

/// The capped exponential wait: `base` doubled `attempt` times, but no more
/// than `max`.
pub open spec fn capped_wait(base: nat, max: nat, attempt: nat) -> nat {
    if base * pow2(attempt) < max {
        base * pow2(attempt)
    } else {
        max
    }
}

/// How many different jitters a capped wait allows: the whole milliseconds in
/// half of it. A draw is a number below this bound.
pub open spec fn draw_bound(capped: nat) -> nat {
    (capped / 2) / (NANOS_PER_MILLI as nat)
}

/// The wait for a capped wait and a draw: half of the capped wait, plus the
/// draw in milliseconds.
pub open spec fn jittered_wait(capped: nat, draw: nat) -> nat {
    capped / 2 + draw * (NANOS_PER_MILLI as nat)
}

/// Whether `wait` is one of the waits that the policy may choose for
/// `attempt`.
pub open spec fn is_wait_for(wait: nat, base: nat, max: nat, attempt: nat) -> bool {
    exists|draw: nat|
        draw < draw_bound(capped_wait(base, max, attempt)) && wait == #[trigger] jittered_wait(
            capped_wait(base, max, attempt),
            draw,
        )
}

/// Doubling never shrinks a wait: a later attempt has at least the
/// uncapped wait of an earlier one.
proof fn lemma_uncapped_grows(base: nat, earlier: nat, later: nat)
    requires
        earlier <= later,
    ensures
        base * pow2(earlier) <= base * pow2(later),
{
    if earlier < later {
        lemma_pow2_strictly_increases(earlier, later);
    }
    assert(base * pow2(earlier) <= base * pow2(later)) by (nonlinear_arith)
        requires
            pow2(earlier) <= pow2(later),
    ;
}

/// The capped wait never exceeds the cap, and never falls below the smaller
/// of base and cap.
pub proof fn lemma_capped_wait_bounds(base: nat, max: nat, attempt: nat)
    ensures
        capped_wait(base, max, attempt) <= max,
        base <= max ==> base <= capped_wait(base, max, attempt),
        max <= base ==> capped_wait(base, max, attempt) == max,
{
    lemma2_to64();
    lemma_uncapped_grows(base, 0, attempt);
    assert(base * pow2(0) == base);
}

/// The capped wait does not decrease as attempts go on.
pub proof fn lemma_capped_wait_grows(base: nat, max: nat, earlier: nat, later: nat)
    requires
        earlier <= later,
    ensures
        capped_wait(base, max, earlier) <= capped_wait(base, max, later),
{
    lemma_uncapped_grows(base, earlier, later);
}

/// A jittered wait keeps at least half of the capped wait and stays below
/// the capped wait itself, whatever was drawn.
pub proof fn lemma_jittered_wait_range(capped: nat, draw: nat)
    requires
        draw < draw_bound(capped),
    ensures
        capped / 2 <= jittered_wait(capped, draw) < capped,
{
    let half: nat = capped / 2;
    let unit: nat = NANOS_PER_MILLI as nat;
    assert((draw + 1) * unit <= (half / unit) * unit) by (nonlinear_arith)
        requires
            draw + 1 <= half / unit,
    ;
    assert((half / unit) * unit <= half) by (nonlinear_arith)
        requires
            unit > 0,
    ;
    assert((draw + 1) * unit == draw * unit + unit) by (nonlinear_arith);
}

/// Every wait that the policy may choose for an attempt lies in the upper
/// half of the capped wait, short of the capped wait, and so below the cap.
pub proof fn lemma_wait_range(wait: nat, base: nat, max: nat, attempt: nat)
    requires
        is_wait_for(wait, base, max, attempt),
    ensures
        capped_wait(base, max, attempt) / 2 <= wait < capped_wait(base, max, attempt),
        wait < max,
{
    let capped = capped_wait(base, max, attempt);
    let draw = choose|draw: nat|
        draw < draw_bound(capped) && wait == #[trigger] jittered_wait(capped, draw);
    lemma_jittered_wait_range(capped, draw);
    lemma_capped_wait_bounds(base, max, attempt);
}

/// Computes the capped wait. A product too large for the machine counts as
/// having reached the cap.
pub fn capped(base: u64, max: u64, attempt: usize) -> (wait: u64)
    ensures
        wait == capped_wait(base as nat, max as nat, attempt as nat),
{
    proof {
        lemma2_to64();
    }
    if base == 0 {
        assert(0 * pow2(attempt as nat) == 0) by (nonlinear_arith);
        return 0;
    }
    let mut wait: u64 = if base < max {
        base
    } else {
        max
    };
    let mut doubled: usize = 0;
    while doubled < attempt && wait < max
        invariant
            doubled <= attempt,
            wait <= max,
            wait < max ==> wait == base * pow2(doubled as nat),
            wait == max ==> base * pow2(doubled as nat) >= max,
        decreases attempt - doubled,
    {
        proof {
            lemma_pow2_unfold((doubled + 1) as nat);
            assert(base * pow2((doubled + 1) as nat) == 2 * (base * pow2(doubled as nat)))
                by (nonlinear_arith)
                requires
                    pow2((doubled + 1) as nat) == 2 * pow2(doubled as nat),
            ;
        }
        if wait > max / 2 {
            wait = max;
        } else {
            wait = wait * 2;
        }
        doubled = doubled + 1;
    }
    proof {
        lemma_uncapped_grows(base as nat, doubled as nat, attempt as nat);
    }
    wait
}

/// The two lengths that shape the waits: the base that attempt zero starts
/// from, and the cap.
pub struct BackoffPolicy {
    base: u64,
    max: u64,
}

impl BackoffPolicy {
    /// Base and cap are long enough that half of every capped wait holds at
    /// least one whole millisecond, so there is always a jitter to draw.
    #[verifier::type_invariant]
    spec fn draws_exist(self) -> bool {
        &&& self.base >= 2 * NANOS_PER_MILLI
        &&& self.max >= 2 * NANOS_PER_MILLI
    }

    /// The base of the policy, in nanoseconds.
    pub closed spec fn base(self) -> nat {
        self.base as nat
    }

    /// The cap of the policy, in nanoseconds.
    pub closed spec fn max(self) -> nat {
        self.max as nat
    }

    /// The policy with a base of 5 ms and a cap of 32 s.
    pub fn standard() -> (policy: Self)
        ensures
            policy.base() == JITTER_BASE_NANOS,
            policy.max() == JITTER_MAX_NANOS,
    {
        BackoffPolicy { base: JITTER_BASE_NANOS, max: JITTER_MAX_NANOS }
    }

    /// The capped wait of the policy for an attempt. Half of it always holds
    /// a whole millisecond.
    pub fn capped(&self, attempt: usize) -> (wait: u64)
        ensures
            wait == capped_wait(self.base(), self.max(), attempt as nat),
            0 < draw_bound(wait as nat),
    {
        proof {
            use_type_invariant(self);
            lemma_capped_wait_bounds(self.base as nat, self.max as nat, attempt as nat);
        }
        capped(self.base, self.max, attempt)
    }
}

/// Computes the bound below which a jitter is drawn for a capped wait.
pub fn draw_limit(capped: u64) -> (bound: u128)
    ensures
        bound == draw_bound(capped as nat),
{
    ((capped / 2) / NANOS_PER_MILLI) as u128
}

/// Computes the wait for a capped wait and a number drawn below its bound.
pub fn jittered(capped: u64, draw: u128) -> (wait: u64)
    requires
        draw < draw_bound(capped as nat),
    ensures
        wait == jittered_wait(capped as nat, draw as nat),
        capped / 2 <= wait < capped,
{
    proof {
        lemma_jittered_wait_range(capped as nat, draw as nat);
    }
    let millis: u64 = draw as u64;
    capped / 2 + millis * NANOS_PER_MILLI
}

} // verus!
