//! Matrix Fixture Generator: deterministic input coefficients and
//! zero-filled output buffers.
//!
//! In the deterministic mode, element `i` of a `rows x cols` matrix is
//! `(i + 1) * scale` for a caller-supplied scale. The scale multiply is a
//! device-side scalar concern; the verified part is the coefficient
//! sequence `1, 2, 3, ...` in row-major order. Output buffers start as
//! all-zero bit patterns (the single-precision value `0.0`), and are
//! re-zeroed before every timed dispatch so an additive kernel bug cannot
//! accumulate across iterations.

use vstd::prelude::*;

verus! {

/// The deterministic fixture coefficients of a `rows x cols` matrix:
/// element `i` is `i + 1`; the caller scales each by its chosen constant.
pub fn fixture_coefficients(rows: usize, cols: usize) -> (r: Vec<u64>)
    requires
        rows * cols <= usize::MAX,
    ensures
        r.len() == rows * cols,
        forall|i: int| 0 <= i < r.len() ==> r[i] == i + 1,
{
    let total: usize = rows * cols;
    let mut r: Vec<u64> = Vec::new();
    let mut i: usize = 0;
    while i < total
        invariant
            i <= total,
            r.len() == i,
            forall|j: int| 0 <= j < r.len() ==> r[j] == j + 1,
        decreases total - i,
    {
        r.push((i as u64) + 1);
        i = i + 1;
    }
    r
}

/// A zero-initialized output buffer of `len` scalar slots, as bit
/// patterns: the all-zero word is the single-precision value `0.0`.
pub fn zeroed_output(len: usize) -> (r: Vec<u32>)
    ensures
        r.len() == len,
        forall|i: int| 0 <= i < r.len() ==> r[i] == 0,
{
    let mut r: Vec<u32> = Vec::new();
    let mut i: usize = 0;
    while i < len
        invariant
            i <= len,
            r.len() == i,
            forall|j: int| 0 <= j < r.len() ==> r[j] == 0,
        decreases len - i,
    {
        r.push(0);
        i = i + 1;
    }
    r
}

} // verus!
