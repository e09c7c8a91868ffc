//! Output lengths of the two-series statistics (BETA, CORREL).

use vstd::prelude::*;
use crate::rolling::{outputs_after, window_count};

verus! {

/// The smaller of two lengths: two-series statistics read both series only
/// as far as the shorter one goes.
pub open spec fn common_len(a: nat, b: nat) -> nat {
    if a <= b {
        a
    } else {
        b
    }
}

/// Output length of CORREL over two series of lengths `n0` and `n1` with a
/// window of `period`: a rolling window over their common length.
pub fn correl_output_len(n0: usize, n1: usize, period: usize) -> (len: usize)
    ensures
        len == window_count(common_len(n0 as nat, n1 as nat), period as nat),
{
    let n = if n0 <= n1 {
        n0
    } else {
        n1
    };
    if period == 0 || n < period {
        0
    } else {
        n - (period - 1)
    }
}

/// Output length of BETA over two price series of lengths `n0` and `n1`: the
/// regression runs over `period` returns, which need `period + 1` prices, so
/// the lookback is `period`.
pub fn beta_output_len(n0: usize, n1: usize, period: usize) -> (len: usize)
    ensures
        len == (if period == 0 {
            0
        } else {
            outputs_after(common_len(n0 as nat, n1 as nat), period as nat)
        }),
        len > 0 ==> len + period == common_len(n0 as nat, n1 as nat),
{
    let n = if n0 <= n1 {
        n0
    } else {
        n1
    };
    if period == 0 || n <= period {
        0
    } else {
        n - period
    }
}

} // verus!
