//! Output lengths of the volume indicators (AD, OBV, ADOSC).

use vstd::prelude::*;
use crate::rolling::outputs_after;

verus! {

/// Whether the four series of a price-and-volume indicator have the same length.
pub open spec fn same_len4(a: nat, b: nat, c: nat, d: nat) -> bool {
    a == b && b == c && c == d
}

/// Output length of the Chaikin A/D line: one cumulative value per bar, and
/// nothing when the four series differ in length.
pub fn ad_output_len(n_high: usize, n_low: usize, n_close: usize, n_volume: usize) -> (len: usize)
    ensures
        len == (if same_len4(n_high as nat, n_low as nat, n_close as nat, n_volume as nat) {
            n_close as nat
        } else {
            0
        }),
{
    if n_close == 0 || n_high != n_close || n_low != n_close || n_volume != n_close {
        0
    } else {
        n_close
    }
}

/// Output length of OBV: one cumulative value per bar, and nothing when the
/// close and volume series differ in length.
pub fn obv_output_len(n_close: usize, n_volume: usize) -> (len: usize)
    ensures
        len == (if n_close == n_volume {
            n_close
        } else {
            0
        }),
{
    if n_close == 0 || n_volume != n_close {
        0
    } else {
        n_close
    }
}

/// Output length of the Chaikin A/D oscillator: both EMAs of the A/D line start
/// at its first value, and output starts once the slow one has seen
/// `slow_period` values, so the lookback is `slow_period - 1`.
pub fn adosc_output_len(
    n_high: usize,
    n_low: usize,
    n_close: usize,
    n_volume: usize,
    fast_period: usize,
    slow_period: usize,
) -> (len: usize)
    ensures
        len == (if fast_period > 0 && slow_period > 0 && same_len4(
            n_high as nat,
            n_low as nat,
            n_close as nat,
            n_volume as nat,
        ) {
            outputs_after(n_close as nat, (slow_period - 1) as nat)
        } else {
            0
        }),
{
    if fast_period == 0 || slow_period == 0 || n_close < slow_period {
        return 0;
    }
    if n_high != n_close || n_low != n_close || n_volume != n_close {
        return 0;
    }
    n_close - (slow_period - 1)
}

} // verus!
