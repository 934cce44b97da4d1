use vstd::prelude::*;

use crate::config::{DEFAULT_DURATION_SECS, stop_bound};
use crate::metrics::Metrics;

verus! {

/// Whether a run goes on: fewer than `max_iterations` requests recorded and
/// less than `max_duration_us` elapsed.
pub open spec fn within_bound(total: nat, elapsed_us: nat, bound: (usize, u64)) -> bool {
    total < bound.0 && elapsed_us < bound.1
}

/// The stop condition: whether `total` requests recorded after `elapsed_us`
/// microseconds are within the bound `(max_iterations, max_duration_us)`.
pub fn should_continue(total: usize, elapsed_us: u64, bound: (usize, u64)) -> (r: bool)
    ensures
        r == within_bound(total as nat, elapsed_us as nat, bound),
{
    total < bound.0 && elapsed_us < bound.1
}

/// A worker's check before each request: the shared counts are within the
/// bound, and no interrupt has asked the run to stop.
pub fn worker_may_proceed(metrics: &Metrics, elapsed_us: u64, bound: (usize, u64), cancelled: bool) -> (r:
    bool)
    requires
        metrics.wf(),
    ensures
        r == (within_bound(metrics.outcomes().len(), elapsed_us as nat, bound) && !cancelled),
{
    !cancelled && should_continue(metrics.total(), elapsed_us, bound)
}

/// With an iteration count `n` and no duration, a run goes on while fewer than
/// `n` requests are recorded, however long that takes (up to `u64::MAX`
/// microseconds): at least one request is made when `n >= 1`, and none once
/// `n` are recorded.
pub proof fn lemma_iteration_bound(n: usize, total: nat, elapsed_us: nat)
    requires
        elapsed_us < u64::MAX,
    ensures
        within_bound(total, elapsed_us, stop_bound(Some(n), None)) <==> total < n,
        n >= 1 ==> within_bound(0, elapsed_us, stop_bound(Some(n), None)),
{
}

/// With a duration `d` and no iteration count, a run goes on exactly while
/// less than `d` has elapsed (up to `usize::MAX` requests).
pub proof fn lemma_duration_bound(d: u64, total: nat, elapsed_us: nat)
    requires
        total < usize::MAX,
    ensures
        within_bound(total, elapsed_us, stop_bound(None, Some(d))) <==> elapsed_us < d,
{
}

/// With neither bound, a run goes on exactly while less than the default
/// duration has elapsed (up to `usize::MAX` requests).
pub proof fn lemma_default_bound(total: nat, elapsed_us: nat)
    requires
        total < usize::MAX,
    ensures
        within_bound(total, elapsed_us, stop_bound(None, None)) <==> elapsed_us < DEFAULT_DURATION_SECS
            * 1_000_000,
{
}

} // verus!
