//! Correctness Verifier: the pass/fail verdict on a measured deviation.
//!
//! A kernel's output is compared against the reference; the maximum
//! absolute deviation is carried here as the bit pattern of an IEEE-754
//! single-precision value. A size passes when the deviation is not NaN and
//! is at most the fixed tolerance. A deviation is a maximum of absolute
//! values, so its sign bit is clear in practice, and on sign-clear
//! patterns numeric order coincides with unsigned bit-pattern order (NaN
//! patterns excluded); infinity's pattern exceeds the tolerance's, so a
//! non-finite deviation fails. A numerical failure is reportable data, not
//! a process error: the run records it and continues.

use vstd::prelude::*;

verus! {

/// Bit pattern of the fixed tolerance, the single-precision value `1e-3`.
pub const TOLERANCE_BITS: u32 = 0x3A83_126F;

/// The pattern encodes a NaN: exponent all ones, fraction nonzero.
pub open spec fn is_nan_bits(bits: u32) -> bool {
    (bits >> 23) & 0xFF == 0xFF && bits & 0x007F_FFFF != 0
}

/// The pattern's sign bit is set (a negative value; never a measured
/// deviation, but the verdict is total over all patterns).
pub open spec fn sign_bit_set(bits: u32) -> bool {
    bits & 0x8000_0000 != 0
}

/// The verdict on a deviation pattern: not NaN, and at most the
/// tolerance. A sign-clear pattern is compared by unsigned bit order,
/// which on such patterns is numeric order; a negative value is below any
/// positive tolerance.
pub open spec fn check_passes_bits(bits: u32) -> bool {
    !is_nan_bits(bits) && (sign_bit_set(bits) || bits <= TOLERANCE_BITS)
}

/// Classifies one measured deviation, given as a single-precision bit
/// pattern.
pub fn deviation_passes(bits: u32) -> (r: bool)
    ensures
        r == check_passes_bits(bits),
{
    let exponent: u32 = (bits >> 23) & 0xFF;
    let fraction: u32 = bits & 0x007F_FFFF;
    let nan: bool = exponent == 0xFF && fraction != 0;
    !nan && ((bits & 0x8000_0000) != 0 || bits <= TOLERANCE_BITS)
}

/// The outcome of checking one kernel at one problem size.
pub struct CheckResult {
    pub kernel_name: String,
    pub problem_size: u32,
    pub deviation_bits: u32,
    pub passed: bool,
}

impl CheckResult {
    /// The recorded flag agrees with the verdict on the recorded
    /// deviation.
    pub open spec fn wf(self) -> bool {
        self.passed == check_passes_bits(self.deviation_bits)
    }

    /// Records one check outcome; the pass flag is derived from the
    /// deviation, never supplied by the caller.
    pub fn new(kernel_name: String, problem_size: u32, deviation_bits: u32) -> (r: CheckResult)
        ensures
            r.wf(),
            r.kernel_name@ == kernel_name@,
            r.problem_size == problem_size,
            r.deviation_bits == deviation_bits,
    {
        let passed: bool = deviation_passes(deviation_bits);
        CheckResult { kernel_name, problem_size, deviation_bits, passed }
    }
}

/// A kernel's overall verdict for a run: the conjunction over its
/// per-size outcomes.
pub fn overall_verdict(results: &Vec<CheckResult>) -> (r: bool)
    ensures
        r == forall|i: int| 0 <= i < results.len() ==> results[i].passed,
{
    let mut i: usize = 0;
    while i < results.len()
        invariant
            i <= results.len(),
            forall|j: int| 0 <= j < i ==> results[j].passed,
        decreases results.len() - i,
    {
        if !results[i].passed {
            return false;
        }
        i = i + 1;
    }
    true
}

/// The fixed battery of problem sizes a kernel must pass before it is
/// trusted for benchmarking; chosen to exercise tile-aligned and
/// tile-misaligned extents.
pub fn battery_sizes() -> (r: Vec<u32>)
    ensures
        r@ == seq![8u32, 32u32, 64u32, 128u32, 256u32],
{
    let mut r: Vec<u32> = Vec::new();
    r.push(8);
    r.push(32);
    r.push(64);
    r.push(128);
    r.push(256);
    proof {
        assert(r@ =~= seq![8u32, 32u32, 64u32, 128u32, 256u32]);
    }
    r
}

/// Two checks that measure the same deviation fall in the same pass/fail
/// class: for a deterministic, race-free kernel, re-running the verifier
/// cannot flip the verdict.
pub proof fn lemma_verdict_deterministic(r1: CheckResult, r2: CheckResult)
    requires
        r1.wf(),
        r2.wf(),
        r1.deviation_bits == r2.deviation_bits,
    ensures
        r1.passed == r2.passed,
{
}

/// A kernel that reproduces the reference output exactly measures a zero
/// deviation, and the zero pattern always passes the tolerance check.
pub proof fn lemma_exact_match_passes()
    ensures
        check_passes_bits(0),
{
    assert((0u32 >> 23) & 0xFF == 0) by (bit_vector);
    assert(0u32 <= TOLERANCE_BITS);
}

} // verus!
