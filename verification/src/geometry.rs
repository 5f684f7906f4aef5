//! Dispatch geometry: ceiling division and thread-group grid sizing.
//!
//! A kernel is dispatched over a 2D grid of thread groups; the grid is the
//! matrix extent divided by the kernel's tile shape, rounded up. A tile
//! dimension of zero denotes a misconfigured descriptor and yields a
//! degenerate zero-group dispatch rather than a division by zero.

use crate::dims::MatrixDims;
use vstd::prelude::*;

verus! {

/// A 3D count of thread groups, as handed to the device for one dispatch.
#[derive(Clone, Copy, PartialEq, Eq, Structural, Debug)]
pub struct GridSize {
    pub width: u64,
    pub height: u64,
    pub depth: u64,
}

/// Ceiling division, with a zero divisor mapped to zero groups.
pub open spec fn spec_ceil_div(num: int, denom: int) -> int {
    if denom <= 0 {
        0
    } else if num % denom == 0 {
        num / denom
    } else {
        num / denom + 1
    }
}

/// Number of thread groups needed to cover `num` items with groups of
/// `denom` items each: the ceiling of `num / denom`, or zero groups when
/// the group size is itself zero.
pub fn ceil_div(num: u64, denom: u64) -> (r: u64)
    ensures
        r == spec_ceil_div(num as int, denom as int),
        denom > 0 ==> (r * denom >= num && (r as int - 1) * denom < num),
{
    if denom == 0 {
        return 0;
    }
    let q: u64 = num / denom;
    let rem: u64 = num % denom;
    proof {
        vstd::arithmetic::div_mod::lemma_fundamental_div_mod(num as int, denom as int);
        vstd::arithmetic::div_mod::lemma_mod_bound(num as int, denom as int);
        assert(num == denom * q + rem);
    }
    if rem == 0 {
        proof {
            assert(q * denom >= num && (q as int - 1) * denom < num) by (nonlinear_arith)
                requires
                    num == denom * q + rem,
                    rem == 0,
                    denom > 0,
            ;
        }
        q
    } else {
        proof {
            assert(q < u64::MAX) by (nonlinear_arith)
                requires
                    num == denom * q + rem,
                    0 < rem < denom,
                    num <= u64::MAX,
            ;
            assert((q + 1) * denom >= num && (q as int + 1 - 1) * denom < num) by (nonlinear_arith)
                requires
                    num == denom * q + rem,
                    0 < rem < denom,
            ;
        }
        q + 1
    }
}

/// The dispatch grid for one multiply: `ceil(n / tile_width)` groups
/// across, `ceil(m / tile_height)` groups down, depth fixed at one.
pub fn dispatch_grid(dims: &MatrixDims, tile_width: u32, tile_height: u32) -> (r: GridSize)
    ensures
        r.width == spec_ceil_div(dims.n as int, tile_width as int),
        r.height == spec_ceil_div(dims.m as int, tile_height as int),
        r.depth == 1,
        tile_width > 0 ==> r.width * tile_width >= dims.n && (r.width as int - 1) * tile_width
            < dims.n,
        tile_height > 0 ==> r.height * tile_height >= dims.m && (r.height as int - 1)
            * tile_height < dims.m,
{
    GridSize {
        width: ceil_div(dims.n as u64, tile_width as u64),
        height: ceil_div(dims.m as u64, tile_height as u64),
        depth: 1,
    }
}

} // verus!
