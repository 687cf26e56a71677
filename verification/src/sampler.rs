//! The sampler's decisions, apart from the clock and the OS query that drive
//! them: which snapshot each tick publishes, and how often publishes are
//! guaranteed to happen.
//!
//! The loop around these runs outside the library: on each tick it queries
//! the OS for per-core utilization, hands the readings (as basis points) to
//! [`next_publish`], publishes the result, and then waits the OS-imposed
//! minimum measurement interval on top of the tick. That worst-case cadence
//! — one publish at start, then at most tick + minimum-interval between
//! publishes — is what [`publishes_by`] models.

use vstd::prelude::*;
use vstd::arithmetic::div_mod::lemma_div_is_ordered;
use vstd::arithmetic::div_mod::lemma_div_multiples_vanish;

verus! {

/// The sampler's fixed tick interval.
pub const TICK_INTERVAL_MS: u64 = 1000;

/// What a tick publishes: the fresh readings when the OS reported one value
/// per core, and the last-known snapshot when it reported an empty or
/// otherwise incomplete list — a per-tick anomaly is tolerated, never fatal,
/// and the store always holds a full snapshot.
pub open spec fn next_snapshot_model(last: Seq<u32>, readings: Seq<u32>) -> Seq<u32> {
    if readings.len() == last.len() {
        readings
    } else {
        last
    }
}

/// Decides what this tick publishes, given the last published snapshot and
/// the readings the OS returned: the readings if they are complete, the
/// last-known snapshot otherwise. The result always has the core count,
/// so it is always fit to publish.
pub fn next_publish(last: &Vec<u32>, readings: Vec<u32>) -> (out: Vec<u32>)
    ensures
        out@ == next_snapshot_model(last@, readings@),
        out@.len() == last@.len(),
{
    if readings.len() == last.len() {
        readings
    } else {
        crate::store::copy_values(last)
    }
}

/// The worst-case time between two publishes: the tick interval plus the
/// minimum measurement interval the sampler waits on top of each tick.
pub open spec fn period_ms(tick_ms: u64, min_wait_ms: u64) -> int {
    tick_ms + min_wait_ms
}

/// How many publishes are guaranteed to have completed `elapsed_ms` after
/// the sampler starts: one at the start (the first tick fires immediately),
/// then at least one more per full worst-case period.
pub open spec fn publishes_by(elapsed_ms: u64, tick_ms: u64, min_wait_ms: u64) -> int {
    elapsed_ms as int / period_ms(tick_ms, min_wait_ms) + 1
}

/// Computes the guaranteed publish count of [`publishes_by`]. At least one
/// publish has always completed: the first tick fires at start, before any
/// waiting.
pub fn guaranteed_publishes(elapsed_ms: u64, tick_ms: u64, min_wait_ms: u64) -> (n: u64)
    requires
        0 < tick_ms + min_wait_ms <= u64::MAX,
        elapsed_ms < u64::MAX,
    ensures
        n == publishes_by(elapsed_ms, tick_ms, min_wait_ms),
        n >= 1,
{
    elapsed_ms / (tick_ms + min_wait_ms) + 1
}

/// Law: the minimum-interval wait never starves the tick cadence by more
/// than its own duration — once `k` whole worst-case periods
/// (tick + minimum interval) have elapsed, at least `k + 1` publishes have
/// completed.
pub proof fn lemma_cadence(elapsed_ms: u64, tick_ms: u64, min_wait_ms: u64, k: int)
    requires
        0 < period_ms(tick_ms, min_wait_ms),
        0 <= k,
        k * period_ms(tick_ms, min_wait_ms) <= elapsed_ms,
    ensures
        publishes_by(elapsed_ms, tick_ms, min_wait_ms) >= k + 1,
{
    let p = period_ms(tick_ms, min_wait_ms);
    lemma_div_is_ordered(k * p, elapsed_ms as int, p);
    lemma_div_multiples_vanish(k, p);
    assert(k * p == p * k) by (nonlinear_arith);
}

} // verus!
