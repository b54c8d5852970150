use vstd::prelude::*;

verus! {

/// Length of one bucket of wall-clock time, in seconds.
pub const PERIOD_SECS: u64 = 10;

/// The boundary at or before time `t`: `t` rounded down to a multiple of the period.
pub open spec fn boundary_of(t: nat) -> nat {
    (t - t % (PERIOD_SECS as nat)) as nat
}

/// Whole seconds from `t` to the next boundary strictly after it.
/// A time that lies exactly on a boundary is a full period away from the next one.
pub open spec fn remaining_of(t: nat) -> nat {
    (PERIOD_SECS as nat - t % (PERIOD_SECS as nat)) as nat
}

/// Waking at or after the next boundary, and less than one period past it, finds
/// that boundary as the current one: it lies exactly one period after the boundary
/// of the earlier time.
pub proof fn lemma_next_boundary(t1: nat, t2: nat)
    requires
        t1 + remaining_of(t1) <= t2 < t1 + remaining_of(t1) + PERIOD_SECS,
    ensures
        boundary_of(t2) == boundary_of(t1) + PERIOD_SECS,
        t1 + remaining_of(t1) == boundary_of(t1) + PERIOD_SECS,
{
    let p = PERIOD_SECS as int;
    let b1 = t1 as int - (t1 as int) % p;
    assert(b1 % p == 0) by {
        vstd::arithmetic::div_mod::lemma_fundamental_div_mod(t1 as int, p);
        vstd::arithmetic::div_mod::lemma_mod_multiples_basic(t1 as int / p, p);
    }
    let q = b1 / p + 1;
    assert(b1 + p == q * p) by {
        vstd::arithmetic::div_mod::lemma_fundamental_div_mod(b1, p);
        vstd::arithmetic::mul::lemma_mul_is_distributive_add_other_way(p, b1 / p, 1);
    }
    let d = t2 as int - (b1 + p);
    assert(0 <= d < p);
    assert((t2 as int) % p == d) by {
        vstd::arithmetic::div_mod::lemma_mod_multiples_vanish(q, d, p);
        vstd::arithmetic::div_mod::lemma_small_mod(d as nat, p as nat);
    }
}

/// Where a point in time falls within its bucket of wall-clock time.
#[derive(Clone, Copy, Debug, PartialEq, Eq, Structural)]
pub struct TimeRange {
    /// The most recently crossed (or current) boundary.
    pub from: u64,
    /// Seconds left until the next boundary, between 1 and the period.
    pub rem: u64,
    /// The time this range was computed for.
    pub current: u64,
}

/// Seconds from `now` (seconds since the epoch) to the next boundary.
pub fn remaining_to_next_boundary(now: u64) -> (r: u64)
    ensures
        r as nat == remaining_of(now as nat),
        1 <= r <= PERIOD_SECS,
        (now + r) % (PERIOD_SECS as int) == 0,
{
    PERIOD_SECS - now % PERIOD_SECS
}

/// The boundary at or before `now` (seconds since the epoch).
pub fn current_boundary(now: u64) -> (r: u64)
    ensures
        r as nat == boundary_of(now as nat),
        r % PERIOD_SECS == 0,
        r <= now < r + PERIOD_SECS,
{
    now - now % PERIOD_SECS
}

/// The bucket that `now` (seconds since the epoch) falls in.
pub fn time_range(now: u64) -> (r: TimeRange)
    ensures
        r.from as nat == boundary_of(now as nat),
        r.rem as nat == remaining_of(now as nat),
        r.current == now,
{
    TimeRange {
        from: current_boundary(now),
        rem: remaining_to_next_boundary(now),
        current: now,
    }
}

} // verus!
