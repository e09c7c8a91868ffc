//! Output lengths of rolling-window indicators.

use vstd::prelude::*;

verus! {

/// How many outputs an indicator whose first output needs `lookback` earlier
/// inputs produces from `n` inputs: every input past the lookback yields one
/// output, and there are none when the input is not longer than the lookback.
pub open spec fn outputs_after(n: nat, lookback: nat) -> nat {
    if n > lookback {
        (n - lookback) as nat
    } else {
        0
    }
}

/// Consuming `a` and then `b` leading values is the same as consuming `a + b`.
pub proof fn lemma_outputs_after_compose(n: nat, a: nat, b: nat)
    ensures
        outputs_after(outputs_after(n, a), b) == outputs_after(n, a + b),
{
}

/// Output count of a plain rolling window of `period` inputs (lookback `period - 1`);
/// a zero period gives nothing.
pub open spec fn window_count(n: nat, period: nat) -> nat {
    if period == 0 {
        0
    } else {
        outputs_after(n, (period - 1) as nat)
    }
}

/// Length of the output of a rolling-window indicator over `n` inputs with a
/// window of `period` values (MIDPOINT, BBANDS, LINEARREG, LINEARREG_SLOPE,
/// STDDEV, VAR, and the SMA-like moving averages): `n - (period - 1)`, or `0`
/// when `period == 0` or `n < period`.
pub fn rolling_output_len(n: usize, period: usize) -> (len: usize)
    ensures
        len == window_count(n as nat, period as nat),
        len > 0 <==> (period >= 1 && n >= period),
        len > 0 ==> len + period - 1 == n,
{
    if period == 0 || n < period {
        0
    } else {
        n - (period - 1)
    }
}

} // verus!
