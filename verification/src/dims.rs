//! Problem dimensions of one matrix multiply.
//!
//! `A` is `m x k`, `B` is `k x n`, `C` is `m x n`, all row-major. Every
//! dispatch carries one `MatrixDims` value, and the three buffers bound
//! alongside it must hold exactly `m*k`, `k*n` and `m*n` elements.

use vstd::prelude::*;

verus! {

/// The three dimensions of one multiply, as passed to every dispatch.
#[derive(Clone, Copy, PartialEq, Eq, Structural, Debug)]
pub struct MatrixDims {
    pub m: u32,
    pub n: u32,
    pub k: u32,
}

impl MatrixDims {
    /// Element count required of the `A` buffer.
    pub open spec fn a_len(self) -> int {
        self.m * self.k
    }

    /// Element count required of the `B` buffer.
    pub open spec fn b_len(self) -> int {
        self.k * self.n
    }

    /// Element count required of the `C` buffer.
    pub open spec fn c_len(self) -> int {
        self.m * self.n
    }

    /// Floating-point operations of one multiply, one fused multiply-add
    /// counted as two operations: `2 * m * n * k`.
    pub open spec fn spec_flop_count(self) -> int {
        2 * self.m * self.n * self.k
    }

    pub fn new(m: u32, n: u32, k: u32) -> (r: MatrixDims)
        ensures
            r == (MatrixDims { m, n, k }),
    {
        MatrixDims { m, n, k }
    }

    /// True exactly when the three buffer element counts match these
    /// dimensions; a dispatch with mismatched buffers must not be issued.
    pub fn buffers_consistent(&self, a_len: usize, b_len: usize, c_len: usize) -> (r: bool)
        ensures
            r == (a_len == self.a_len() && b_len == self.b_len() && c_len == self.c_len()),
    {
        proof {
            assert((self.m as int) * (self.k as int) <= 0xFFFF_FFFE_0000_0001
                && (self.k as int) * (self.n as int) <= 0xFFFF_FFFE_0000_0001
                && (self.m as int) * (self.n as int) <= 0xFFFF_FFFE_0000_0001) by (nonlinear_arith)
                requires
                    self.m < 0x1_0000_0000,
                    self.n < 0x1_0000_0000,
                    self.k < 0x1_0000_0000,
            ;
        }
        let a_need: u64 = (self.m as u64) * (self.k as u64);
        let b_need: u64 = (self.k as u64) * (self.n as u64);
        let c_need: u64 = (self.m as u64) * (self.n as u64);
        (a_len as u64) == a_need && (b_len as u64) == b_need && (c_len as u64) == c_need
    }

    /// Exact operation count of one multiply at these dimensions.
    pub fn flop_count(&self) -> (r: u128)
        ensures
            r == self.spec_flop_count(),
    {
        proof {
            assert(2 * (self.m as int) * (self.n as int) <= 0x2_0000_0000_0000_0000
                && 2 * (self.m as int) * (self.n as int) * (self.k as int)
                    <= 0x2_0000_0000_0000_0000_0000_0000) by (nonlinear_arith)
                requires
                    self.m < 0x1_0000_0000,
                    self.n < 0x1_0000_0000,
                    self.k < 0x1_0000_0000,
            ;
        }
        2u128 * (self.m as u128) * (self.n as u128) * (self.k as u128)
    }
}

} // verus!
