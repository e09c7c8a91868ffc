//! Output lengths and index plans of the trend indicators that are not plain
//! moving averages: MIDPRICE, MAVP, SAR / SAREXT, ADX and MAMA.

use vstd::prelude::*;
use crate::rolling::{outputs_after, window_count};

verus! {

/// Output length of MIDPRICE over a high series of length `n_high` and a low
/// series of length `n_low`: a rolling window of `period` bars, and nothing
/// when the two series differ in length.
pub fn midprice_output_len(n_high: usize, n_low: usize, period: usize) -> (len: usize)
    ensures
        len == (if n_high == n_low {
            window_count(n_high as nat, period as nat)
        } else {
            0
        }),
{
    if period == 0 || n_high < period || n_high != n_low {
        0
    } else {
        n_high - (period - 1)
    }
}

/// Whether the MAVP parameters are accepted: both period bounds positive and
/// `min_period <= max_period`, with one period per input value.
pub open spec fn mavp_valid(n: nat, n_periods: nat, min_period: nat, max_period: nat) -> bool {
    max_period > 0 && min_period > 0 && min_period <= max_period && n == n_periods
}

/// Output length of MAVP over `n` values with `n_periods` per-bar periods,
/// each bar's period kept within `min_period..=max_period`: the lookback is
/// `max_period - 1`.
pub fn mavp_output_len(n: usize, n_periods: usize, min_period: usize, max_period: usize) -> (len:
    usize)
    ensures
        len == (if mavp_valid(n as nat, n_periods as nat, min_period as nat, max_period as nat) {
            outputs_after(n as nat, (max_period - 1) as nat)
        } else {
            0
        }),
{
    if max_period == 0 || min_period == 0 || min_period > max_period {
        return 0;
    }
    if n != n_periods {
        return 0;
    }
    let lookback = max_period - 1;
    if n <= lookback {
        return 0;
    }
    n - lookback
}

/// `value` kept within `lo..=hi`.
pub open spec fn clamp(value: nat, lo: nat, hi: nat) -> nat {
    if value < lo {
        lo
    } else if value > hi {
        hi
    } else {
        value
    }
}

/// The averaging window of MAVP at input `idx`, given the bar's period
/// rounded to an integer: the period clamped to `min_period..=max_period`, and
/// the first input of the window that ends at `idx` and holds that many values.
pub fn mavp_window(idx: usize, rounded_period: usize, min_period: usize, max_period: usize) -> (window: (
    usize,
    usize,
))
    requires
        1 <= min_period <= max_period,
        max_period - 1 <= idx,
    ensures
        window.1 as nat == clamp(rounded_period as nat, min_period as nat, max_period as nat),
        window.0 + window.1 == idx + 1,
{
    let period = if rounded_period < min_period {
        min_period
    } else if rounded_period > max_period {
        max_period
    } else {
        rounded_period
    };
    (idx - (period - 1), period)
}

/// Output length of SAR and SAREXT over high and low series of `n_high` and
/// `n_low` bars, which must be equal (the indicators reject unequal series
/// outright): one value per bar after the first.
pub fn sar_output_len(n_high: usize, n_low: usize) -> (len: usize)
    requires
        n_high == n_low,
    ensures
        len == outputs_after(n_high as nat, 1),
{
    if n_high < 2 {
        0
    } else {
        n_high - 1
    }
}

/// The earlier bars whose extremes bound the stop-and-reverse level computed
/// at bar `i`: always bar `i - 1`, and also bar `i - 2` from bar 3 on.
pub fn sar_guard_bars(i: usize) -> (bars: (usize, Option<usize>))
    requires
        i >= 1,
    ensures
        bars.0 == i - 1,
        bars.1 == (if i >= 3 {
            Some((i - 2) as usize)
        } else {
            None::<usize>
        }),
{
    if i >= 3 {
        (i - 1, Some(i - 2))
    } else {
        (i - 1, None)
    }
}

/// Output length of ADX over high, low and close series, which must have
/// equal length `n` (ADX rejects unequal series outright): the directional
/// indices need `period` smoothed bars after the first, and ADX smooths
/// `period` of them, so the lookback is `2 * period - 1`.
pub fn adx_output_len(n: usize, n_low: usize, n_close: usize, period: usize) -> (len: usize)
    requires
        n == n_low,
        n == n_close,
    ensures
        len == (if period == 0 {
            0
        } else {
            outputs_after(n as nat, (2 * period - 1) as nat)
        }),
        len > 0 ==> len + 2 * period - 1 == n,
{
    if period == 0 || n / 2 < period {
        0
    } else {
        n - (2 * period - 1)
    }
}

/// Whether the window of `period` values ending at input `i` still holds input
/// `j` (MIDPRICE drops an index from its deques once this fails).
pub fn window_holds(j: usize, i: usize, period: usize) -> (held: bool)
    requires
        j <= i,
    ensures
        held == (i < j + period),
{
    i - j < period
}

/// What MIDPOINT does to find the extreme of the window starting at
/// `window_start`, given the index of the extreme it cached for the window before.
#[derive(PartialEq, Eq, Structural, Clone, Copy, Debug)]
pub enum ExtremeScan {
    /// The cached extreme is gone (or was invalidated): scan the whole window.
    Rescan,
    /// The cached extreme is still in the window: compare it with the newest value only.
    Extend,
}

/// MIDPOINT's choice for the window starting at `window_start`: rescan when no
/// extreme is cached or the cached one lies before the window.
pub fn extreme_scan(cached: Option<usize>, window_start: usize) -> (scan: ExtremeScan)
    ensures
        scan == (match cached {
            Some(j) => if j < window_start {
                ExtremeScan::Rescan
            } else {
                ExtremeScan::Extend
            },
            None => ExtremeScan::Rescan,
        }),
{
    match cached {
        Some(j) => if j < window_start {
            ExtremeScan::Rescan
        } else {
            ExtremeScan::Extend
        },
        None => ExtremeScan::Rescan,
    }
}

/// MAMA alternates two sets of Hilbert filters between even and odd bars, and
/// the three slots of each filter's delay buffer rotate after each even bar.
/// For bar `today` using slot `slot`: whether the bar is even, and the slot of
/// the next bar.
pub fn hilbert_bar(today: usize, slot: usize) -> (step: (bool, usize))
    requires
        slot < 3,
    ensures
        step.0 == (today % 2 == 0),
        step.1 == (if today % 2 == 0 {
            (slot + 1) % 3
        } else {
            slot as int
        }),
        step.1 < 3,
{
    if today % 2 == 0 {
        (true, if slot == 2 {
            0
        } else {
            slot + 1
        })
    } else {
        (false, slot)
    }
}

/// Number of leading inputs MAMA consumes: its price smoothing and Hilbert
/// transform warm up over 32 bars.
pub open spec fn mama_lookback() -> nat {
    32
}

/// Output length of MAMA (and of FAMA) over `n` inputs.
pub fn mama_output_len(n: usize) -> (len: usize)
    ensures
        len == outputs_after(n as nat, mama_lookback()),
{
    if n <= 32 {
        0
    } else {
        n - 32
    }
}

} // verus!
