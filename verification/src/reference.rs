//! Reference Evaluator: the host-side matrix multiply that serves as the
//! correctness oracle.
//!
//! Matrices are row-major. Elements are integers (a fixed-point view of the
//! device's scalar values), so the reference product is exact:
//! `C[i,j] = sum over p of A[i,p] * B[p,j]`, with every intermediate carried
//! in 128 bits and proved free of overflow. The oracle is only invoked at
//! sizes small enough for a single-threaded cubic multiply.

use vstd::prelude::*;

verus! {

/// The sum of the first `t` terms of the inner product for entry
/// `(row, col)`: sum over `p < t` of `A[row*k + p] * B[p*n + col]`.
pub open spec fn partial_inner(
    a: Seq<i32>,
    b: Seq<i32>,
    n: int,
    k: int,
    row: int,
    col: int,
    t: int,
) -> int
    decreases t,
{
    if t <= 0 {
        0
    } else {
        partial_inner(a, b, n, k, row, col, t - 1)
            + (a[row * k + (t - 1)] as int) * (b[(t - 1) * n + col] as int)
    }
}

/// Entry `(row, col)` of the product `A * B`: the full `k`-term inner
/// product.
pub open spec fn mm_entry(a: Seq<i32>, b: Seq<i32>, n: int, k: int, row: int, col: int) -> int {
    partial_inner(a, b, n, k, row, col, k)
}

/// A row-major index lies below the end of its rectangle.
proof fn lemma_row_major_index_bound(i: int, j: int, rows: int, cols: int)
    requires
        0 <= i < rows,
        0 <= j < cols,
    ensures
        0 <= i * cols + j < rows * cols,
{
    assert(0 <= i * cols + j < rows * cols) by (nonlinear_arith)
        requires
            0 <= i < rows,
            0 <= j < cols,
    ;
}

/// The reference multiply: row-major `C = A * B` with `A` of shape `m x k`
/// and `B` of shape `k x n`, every entry computed exactly.
pub fn cpu_sgemm(m: usize, n: usize, k: usize, a: &Vec<i32>, b: &Vec<i32>) -> (c: Vec<i128>)
    requires
        a.len() == m * k,
        b.len() == k * n,
    ensures
        c.len() == m * n,
        forall|i: int, j: int|
            0 <= i < m && 0 <= j < n ==> c[i * (n as int) + j] == mm_entry(
                a@,
                b@,
                n as int,
                k as int,
                i,
                j,
            ),
{
    let mut c: Vec<i128> = Vec::new();
    let mut row: usize = 0;
    while row < m
        invariant
            row <= m,
            a.len() == m * k,
            b.len() == k * n,
            c.len() == row * n,
            forall|i: int, j: int|
                0 <= i < row && 0 <= j < n ==> c[i * (n as int) + j] == mm_entry(
                    a@,
                    b@,
                    n as int,
                    k as int,
                    i,
                    j,
                ),
        decreases m - row,
    {
        let mut col: usize = 0;
        while col < n
            invariant
                col <= n,
                row < m,
                a.len() == m * k,
                b.len() == k * n,
                c.len() == row * n + col,
                forall|i: int, j: int|
                    0 <= i < row && 0 <= j < n ==> c[i * (n as int) + j] == mm_entry(
                        a@,
                        b@,
                        n as int,
                        k as int,
                        i,
                        j,
                    ),
                forall|j: int|
                    0 <= j < col ==> c[row * n + j] == mm_entry(a@, b@, n as int, k as int, row as int, j),
            decreases n - col,
        {
            let mut acc: i128 = 0;
            let mut kk: usize = 0;
            while kk < k
                invariant
                    kk <= k,
                    row < m,
                    col < n,
                    a.len() == m * k,
                    b.len() == k * n,
                    acc == partial_inner(a@, b@, n as int, k as int, row as int, col as int, kk as int),
                    -(kk as int) * 0x4000_0000_0000_0000 <= acc <= (kk as int)
                        * 0x4000_0000_0000_0000,
                decreases k - kk,
            {
                proof {
                    lemma_row_major_index_bound(row as int, kk as int, m as int, k as int);
                    lemma_row_major_index_bound(kk as int, col as int, k as int, n as int);
                }
                let av: i32 = a[row * k + kk];
                let bv: i32 = b[kk * n + col];
                proof {
                    assert(-0x4000_0000_0000_0000 <= (av as int) * (bv as int)
                        <= 0x4000_0000_0000_0000) by (nonlinear_arith)
                        requires
                            -0x8000_0000 <= av <= 0x7FFF_FFFF,
                            -0x8000_0000 <= bv <= 0x7FFF_FFFF,
                    ;
                    assert((kk as int) * 0x4000_0000_0000_0000 + 0x4000_0000_0000_0000 == (kk
                        as int + 1) * 0x4000_0000_0000_0000);
                    assert((kk as int + 1) * 0x4000_0000_0000_0000 <= 0xFFFF_FFFF_FFFF_FFFF
                        * 0x4000_0000_0000_0000);
                }
                acc = acc + (av as i128) * (bv as i128);
                kk = kk + 1;
            }
            proof {
                lemma_row_major_index_bound(row as int, col as int, m as int, n as int);
            }
            let ghost prev = c@;
            c.push(acc);
            proof {
                assert forall|i: int, j: int| 0 <= i < row && 0 <= j < n implies c[i * (n as int)
                    + j] == mm_entry(a@, b@, n as int, k as int, i, j) by {
                    lemma_row_major_index_bound(i, j, row as int, n as int);
                    assert(c[i * (n as int) + j] == prev[i * (n as int) + j]);
                }
            }
            col = col + 1;
        }
        proof {
            assert((row + 1) * n == row * n + n) by (nonlinear_arith);
        }
        row = row + 1;
    }
    c
}

} // verus!
