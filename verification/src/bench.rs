//! Throughput Benchmarker: the adaptive stopping rule and operation
//! accounting.
//!
//! One benchmark run repeats, after a few untimed warmup dispatches:
//! re-zero the output, dispatch, record the iteration — until a minimum
//! wall-clock duration has elapsed or an iteration cap is reached. The
//! floor amortizes per-dispatch noise; the cap bounds exposure to an
//! outlier-slow kernel. Elapsed time is accounted in integer nanoseconds;
//! the caller divides total operations by elapsed seconds to report
//! GFLOPS, one fused multiply-add counted as two operations.

use crate::dims::MatrixDims;
use vstd::prelude::*;

verus! {

/// Minimum timed wall-clock duration of one benchmark run: two seconds.
pub const MIN_DURATION_NS: u64 = 2_000_000_000;

/// Cap on timed iterations, bounding the run time of an outlier-slow
/// kernel.
pub const MAX_ITERATIONS: u64 = 10_000;

/// Untimed warmup dispatches that absorb first-invocation compilation and
/// caching overhead.
pub const WARMUP_ITERATIONS: u64 = 3;

/// Running tally of one benchmark: timed iterations completed and their
/// total elapsed wall-clock time.
pub struct BenchState {
    pub iterations: u64,
    pub elapsed_ns: u64,
}

impl BenchState {
    /// A fresh tally: nothing timed yet.
    pub fn new() -> (r: BenchState)
        ensures
            r.iterations == 0,
            r.elapsed_ns == 0,
    {
        BenchState { iterations: 0, elapsed_ns: 0 }
    }

    /// Accounts one timed dispatch that took `dt_ns`. Elapsed time never
    /// decreases as iterations are added.
    pub fn record_iteration(&mut self, dt_ns: u64)
        requires
            old(self).iterations < u64::MAX,
            old(self).elapsed_ns + dt_ns <= u64::MAX,
        ensures
            final(self).iterations == old(self).iterations + 1,
            final(self).elapsed_ns == old(self).elapsed_ns + dt_ns,
            final(self).elapsed_ns >= old(self).elapsed_ns,
    {
        self.iterations = self.iterations + 1;
        self.elapsed_ns = self.elapsed_ns + dt_ns;
    }

    /// The adaptive stopping rule: stop exactly when the duration floor
    /// has been met or the iteration cap has been hit.
    pub fn should_stop(&self, min_duration_ns: u64, max_iterations: u64) -> (r: bool)
        ensures
            r == (self.elapsed_ns >= min_duration_ns || self.iterations >= max_iterations),
    {
        self.elapsed_ns >= min_duration_ns || self.iterations >= max_iterations
    }

    /// Total operations performed by the timed iterations at `dims`;
    /// the GFLOPS numerator.
    pub fn total_flops(&self, dims: &MatrixDims) -> (r: u128)
        requires
            dims.spec_flop_count() * self.iterations <= u128::MAX,
        ensures
            r == dims.spec_flop_count() * self.iterations,
    {
        dims.flop_count() * (self.iterations as u128)
    }
}

/// Total elapsed time after the first `t` timed iterations of a run
/// whose per-iteration durations are `deltas`.
pub open spec fn elapsed_after(deltas: Seq<u64>, t: int) -> int
    decreases t,
{
    if t <= 0 {
        0
    } else {
        elapsed_after(deltas, t - 1) + deltas[t - 1]
    }
}

/// Measured elapsed time is monotonically non-decreasing in the
/// iteration count: within one run, a later tally never shows less
/// elapsed time than an earlier one.
pub proof fn lemma_elapsed_monotone(deltas: Seq<u64>, i: int, j: int)
    requires
        0 <= i <= j <= deltas.len(),
    ensures
        elapsed_after(deltas, i) <= elapsed_after(deltas, j),
    decreases j - i,
{
    if i < j {
        lemma_elapsed_monotone(deltas, i, j - 1);
    }
}

/// Stopping-rule floor: in a run where every timed iteration took at most
/// `per_iter_ns` and the elapsed floor `min_duration_ns` was met, at
/// least `min_duration_ns / per_iter_ns` iterations were counted.
pub proof fn lemma_iteration_floor(s: BenchState, per_iter_ns: u64, min_duration_ns: u64)
    requires
        per_iter_ns > 0,
        s.elapsed_ns <= s.iterations * per_iter_ns,
        s.elapsed_ns >= min_duration_ns,
    ensures
        s.iterations >= min_duration_ns as int / per_iter_ns as int,
{
    let q = min_duration_ns as int / per_iter_ns as int;
    let r = min_duration_ns as int % per_iter_ns as int;
    vstd::arithmetic::div_mod::lemma_fundamental_div_mod(
        min_duration_ns as int,
        per_iter_ns as int,
    );
    vstd::arithmetic::div_mod::lemma_mod_bound(min_duration_ns as int, per_iter_ns as int);
    assert(s.iterations >= q) by (nonlinear_arith)
        requires
            s.iterations * per_iter_ns >= min_duration_ns,
            min_duration_ns == per_iter_ns * q + r,
            0 <= r < per_iter_ns,
            per_iter_ns > 0,
            s.iterations >= 0,
    ;
}

} // verus!
