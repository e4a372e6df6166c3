//! Reconnection backoff: capped exponential growth of the period between
//! connection attempts, reset to the default after a successful connection.
use vstd::prelude::*;

verus! {

/// Period of the connection poll while nothing has failed yet.
pub const DEFAULT_CONNECT_PERIOD_SECONDS: u64 = 1;

/// First period after a failed connection attempt.
pub const MIN_CONNECT_PERIOD_SECONDS: u64 = 10;

/// Upper bound of the connection poll period.
pub const MAX_CONNECT_PERIOD_SECONDS: u64 = 10 * 60;

/// The period that follows a failed attempt made at period `p`.
pub open spec fn spec_next_connect_period(p: int) -> int {
    if p == DEFAULT_CONNECT_PERIOD_SECONDS {
        MIN_CONNECT_PERIOD_SECONDS as int
    } else if 2 * p > MAX_CONNECT_PERIOD_SECONDS {
        MAX_CONNECT_PERIOD_SECONDS as int
    } else {
        2 * p
    }
}

/// The period reached from `p` after `n` failed attempts in a row.
pub open spec fn period_after_failures(p: int, n: nat) -> int
    decreases n,
{
    if n == 0 {
        p
    } else {
        spec_next_connect_period(period_after_failures(p, (n - 1) as nat))
    }
}

/// `base * 2^k`.
pub open spec fn doubled(base: int, k: nat) -> int
    decreases k,
{
    if k == 0 {
        base
    } else {
        2 * doubled(base, (k - 1) as nat)
    }
}

pub open spec fn min_int(a: int, b: int) -> int {
    if a <= b {
        a
    } else {
        b
    }
}

/// The period to use after a failed connection attempt made at `period`:
/// the floor after the default period, otherwise twice the period, capped.
pub fn next_connect_period(period: u64) -> (r: u64)
    ensures
        r == spec_next_connect_period(period as int),
{
    if period == DEFAULT_CONNECT_PERIOD_SECONDS {
        MIN_CONNECT_PERIOD_SECONDS
    } else if period > MAX_CONNECT_PERIOD_SECONDS / 2 {
        MAX_CONNECT_PERIOD_SECONDS
    } else {
        period * 2
    }
}

proof fn lemma_doubled_grows(base: int, k: nat)
    requires
        base >= 1,
    ensures
        doubled(base, k) >= base,
    decreases k,
{
    if k > 0 {
        lemma_doubled_grows(base, (k - 1) as nat);
    }
}

/// Starting at the default period, `n >= 1` failures in a row give the
/// floor doubled `n - 1` times, capped at the ceiling: 10, 20, 40, ...,
/// 320, 600, 600, ...
pub proof fn lemma_backoff_sequence(n: nat)
    requires
        n >= 1,
    ensures
        period_after_failures(DEFAULT_CONNECT_PERIOD_SECONDS as int, n) == min_int(
            doubled(MIN_CONNECT_PERIOD_SECONDS as int, (n - 1) as nat),
            MAX_CONNECT_PERIOD_SECONDS as int,
        ),
    decreases n,
{
    let d = DEFAULT_CONNECT_PERIOD_SECONDS as int;
    if n == 1 {
        assert(period_after_failures(d, 0) == d);
        assert(doubled(MIN_CONNECT_PERIOD_SECONDS as int, 0) == MIN_CONNECT_PERIOD_SECONDS);
    } else {
        let k = (n - 2) as nat;
        lemma_backoff_sequence((n - 1) as nat);
        lemma_doubled_grows(MIN_CONNECT_PERIOD_SECONDS as int, k);
        assert(doubled(MIN_CONNECT_PERIOD_SECONDS as int, (k + 1) as nat) == 2 * doubled(
            MIN_CONNECT_PERIOD_SECONDS as int,
            k,
        ));
        assert(period_after_failures(d, n) == spec_next_connect_period(
            period_after_failures(d, (n - 1) as nat),
        ));
    }
}

/// Every period reached from the default by failures lies between the
/// floor and the ceiling, once at least one failure happened.
pub proof fn lemma_backoff_bounded(n: nat)
    requires
        n >= 1,
    ensures
        MIN_CONNECT_PERIOD_SECONDS <= period_after_failures(DEFAULT_CONNECT_PERIOD_SECONDS as int, n)
            <= MAX_CONNECT_PERIOD_SECONDS,
{
    lemma_backoff_sequence(n);
    lemma_doubled_grows(MIN_CONNECT_PERIOD_SECONDS as int, (n - 1) as nat);
}

/// The periods that the connection poll can run at: the default, or the
/// floor doubled some times, capped at the ceiling.
pub open spec fn is_backoff_period(p: int) -> bool {
    p == 1 || p == 10 || p == 20 || p == 40 || p == 80 || p == 160 || p == 320 || p == 600
}

/// A failure keeps the period among the backoff periods, and it never
/// exceeds the ceiling.
pub proof fn lemma_backoff_period_closed(p: int)
    requires
        is_backoff_period(p),
    ensures
        is_backoff_period(spec_next_connect_period(p)),
        1 <= spec_next_connect_period(p) <= MAX_CONNECT_PERIOD_SECONDS,
{
}

} // verus!
