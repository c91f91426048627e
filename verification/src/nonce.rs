//! Splitting the nonce space among workers.

use vstd::prelude::*;

verus! {

/// The largest nonce.
pub const MAX_NONCE: u64 = 0xffff_ffff_ffff_ffff;

/// Width of one worker's share when the nonce space is cut into `workers` parts.
pub open spec fn stride(workers: u64) -> int
    recommends
        workers >= 1,
{
    MAX_NONCE as int / workers as int
}

/// First nonce of the worker at `index` among `workers`.
///
/// For `index < workers` this is `stride(workers) * index`. A larger index
/// gives the same product, held at `MAX_NONCE`.
pub open spec fn partition_start(workers: u64, index: u64) -> int
    recommends
        workers >= 1,
{
    let product = stride(workers) * index;
    if product <= MAX_NONCE {
        product
    } else {
        MAX_NONCE as int
    }
}

/// The stride is at least one nonce wide, and `workers` strides fit below `MAX_NONCE`.
pub proof fn lemma_stride_bounds(workers: u64)
    requires
        workers >= 1,
    ensures
        1 <= stride(workers) <= MAX_NONCE,
        stride(workers) * workers <= MAX_NONCE,
        MAX_NONCE - stride(workers) * workers < workers,
{
    let q = stride(workers);
    let w = workers as int;
    let m = MAX_NONCE as int;
    assert(m == w * (m / w) + m % w) by {
        vstd::arithmetic::div_mod::lemma_fundamental_div_mod(m, w);
    }
    assert(0 <= m % w < w) by {
        vstd::arithmetic::div_mod::lemma_mod_bound(m, w);
    }
    assert(q >= 1) by {
        if q <= 0 {
            assert(q * w <= 0) by (nonlinear_arith)
                requires
                    q <= 0,
                    w >= 1,
            ;
        }
    }
    assert(q <= m) by (nonlinear_arith)
        requires
            q * w <= m,
            w >= 1,
            q >= 1,
    ;
}

/// Within the worker count no start saturates: it is the plain product.
pub proof fn lemma_partition_exact(workers: u64, index: u64)
    requires
        workers >= 1,
        index < workers,
    ensures
        partition_start(workers, index) == stride(workers) * index,
        partition_start(workers, index) + stride(workers) <= MAX_NONCE,
{
    lemma_stride_bounds(workers);
    let q = stride(workers);
    assert(q * index + q <= q * workers) by (nonlinear_arith)
        requires
            q >= 1,
            index < workers,
    ;
}

/// Starts grow strictly with the worker index, by at least one stride.
pub proof fn lemma_partition_increasing(workers: u64, i: u64, j: u64)
    requires
        workers >= 1,
        i < j < workers,
    ensures
        partition_start(workers, i) + stride(workers) <= partition_start(workers, j),
        partition_start(workers, i) < partition_start(workers, j),
{
    lemma_stride_bounds(workers);
    lemma_partition_exact(workers, i);
    lemma_partition_exact(workers, j);
    let q = stride(workers);
    assert(q * i + q <= q * j) by (nonlinear_arith)
        requires
            q >= 1,
            i < j,
    ;
}

/// Two different workers never start at the same nonce.
pub proof fn lemma_partition_distinct(workers: u64, i: u64, j: u64)
    requires
        workers >= 1,
        i < workers,
        j < workers,
        i != j,
    ensures
        partition_start(workers, i) != partition_start(workers, j),
{
    if i < j {
        lemma_partition_increasing(workers, i, j);
    } else {
        lemma_partition_increasing(workers, j, i);
    }
}

/// The nominal shares `[start(i), start(i) + stride)` of two different workers
/// share no nonce.
pub proof fn lemma_partition_disjoint(workers: u64, i: u64, j: u64, n: int)
    requires
        workers >= 1,
        i < workers,
        j < workers,
        i != j,
        partition_start(workers, i) <= n < partition_start(workers, i) + stride(workers),
    ensures
        !(partition_start(workers, j) <= n < partition_start(workers, j) + stride(workers)),
{
    if i < j {
        lemma_partition_increasing(workers, i, j);
    } else {
        lemma_partition_increasing(workers, j, i);
    }
}

/// The nominal shares cover every nonce below `stride(workers) * workers`;
/// what is left above them is shorter than `workers` nonces.
pub proof fn lemma_partition_covers(workers: u64, n: u64) -> (index: u64)
    requires
        workers >= 1,
        n < stride(workers) * workers,
    ensures
        index < workers,
        partition_start(workers, index) <= n < partition_start(workers, index) + stride(workers),
{
    lemma_stride_bounds(workers);
    let q = stride(workers);
    let k = n as int / q;
    assert(n as int == q * k + n as int % q) by {
        vstd::arithmetic::div_mod::lemma_fundamental_div_mod(n as int, q);
    }
    assert(0 <= n as int % q < q) by {
        vstd::arithmetic::div_mod::lemma_mod_bound(n as int, q);
    }
    assert(0 <= k) by {
        vstd::arithmetic::div_mod::lemma_div_pos_is_pos(n as int, q);
    }
    assert(k < workers) by {
        if k >= workers {
            assert(q * k >= q * workers) by (nonlinear_arith)
                requires
                    q >= 1,
                    k >= workers,
            ;
        }
    }
    let index = k as u64;
    lemma_partition_exact(workers, index);
    index
}

/// First nonce that the worker at `index` among `workers` scans.
pub fn partition(workers: u64, index: u64) -> (start: u64)
    requires
        workers >= 1,
    ensures
        start == partition_start(workers, index),
        index < workers ==> start == (MAX_NONCE / workers) * index,
{
    let share: u64 = MAX_NONCE / workers;
    proof {
        if index < workers {
            lemma_partition_exact(workers, index);
        }
    }
    match share.checked_mul(index) {
        Some(start) => start,
        None => MAX_NONCE,
    }
}

} // verus!
