//! Output lengths of the volatility indicators (TRANGE, ATR, NATR).

use vstd::prelude::*;
use crate::rolling::{outputs_after, window_count};

verus! {

/// Whether the three price series of a bar indicator have the same length.
pub open spec fn same_len3(a: nat, b: nat, c: nat) -> bool {
    a == b && b == c
}

/// Output length of TRANGE over high, low and close series: one true range per
/// bar after the first, and nothing when the lengths differ.
pub fn trange_output_len(n_high: usize, n_low: usize, n_close: usize) -> (len: usize)
    ensures
        len == (if same_len3(n_high as nat, n_low as nat, n_close as nat) {
            outputs_after(n_close as nat, 1)
        } else {
            0
        }),
{
    if n_close < 2 || n_high != n_close || n_low != n_close {
        0
    } else {
        n_close - 1
    }
}

/// Output length of ATR (and of NATR) with a smoothing `period`: the lookback
/// is `period`, and nothing is produced when the lengths differ.
pub fn atr_output_len(n_high: usize, n_low: usize, n_close: usize, period: usize) -> (len: usize)
    ensures
        len == (if period > 0 && same_len3(n_high as nat, n_low as nat, n_close as nat) {
            outputs_after(n_close as nat, period as nat)
        } else {
            0
        }),
        len > 0 ==> len + period == n_close,
{
    if period == 0 || n_close <= period || n_high != n_close || n_low != n_close {
        0
    } else {
        n_close - period
    }
}

/// ATR is the Wilder average of the true range: its output length is that of a
/// `period` window over the TRANGE output.
pub proof fn lemma_atr_is_window_over_trange(n: nat, period: nat)
    ensures
        (if period > 0 {
            outputs_after(n, period)
        } else {
            0
        }) == window_count(outputs_after(n, 1), period),
{
}

} // verus!
