//! Planning of the MACD family: validation of the periods, the alignment of the
//! fast and slow lines and of the signal line, and the output length.

use vstd::prelude::*;
use crate::rolling::{outputs_after, window_count};
use crate::ma::{kind_of, kind_lookback, ma_lookback_checked, lemma_lookback_monotone};

verus! {

/// How the MACD series are laid out over the input.
#[derive(PartialEq, Eq, Structural, Clone, Copy, Debug)]
pub struct MacdPlan {
    /// First input of the window whose mean seeds the fast EMA (`slow - fast`),
    /// so that the seeded fast EMA is aligned with the slow EMA.
    pub fast_seed_start: usize,
    /// Length of the MACD line (fast minus slow): `n - (slow - 1)`.
    pub line_len: usize,
    /// Leading MACD-line values consumed by the signal EMA: `signal - 1`.
    pub signal_trim: usize,
    /// Length of each of the three outputs (MACD, signal, histogram).
    pub out_len: usize,
}

/// Output length of MACD over `n` inputs: nothing unless all periods are
/// positive and `slow >= fast`; otherwise a signal EMA over the MACD line,
/// itself as long as the slow EMA.
pub open spec fn macd_count(n: nat, fast: nat, slow: nat, signal: nat) -> nat {
    if fast == 0 || slow == 0 || signal == 0 || slow < fast {
        0
    } else {
        window_count(window_count(n, slow), signal)
    }
}

/// The full layout of MACD, or `None` when its output is empty.
pub open spec fn macd_layout(n: nat, fast: nat, slow: nat, signal: nat) -> Option<MacdPlan> {
    if macd_count(n, fast, slow, signal) == 0 {
        None
    } else {
        Some(
            MacdPlan {
                fast_seed_start: (slow - fast) as usize,
                line_len: (n - (slow - 1)) as usize,
                signal_trim: (signal - 1) as usize,
                out_len: macd_count(n, fast, slow, signal) as usize,
            },
        )
    }
}

/// Plans MACD with periods `fast`, `slow` and `signal` over `n` inputs.
pub fn macd_plan(n: usize, fast: usize, slow: usize, signal: usize) -> (plan: Option<MacdPlan>)
    ensures
        plan == macd_layout(n as nat, fast as nat, slow as nat, signal as nat),
        plan is Some <==> fast > 0 && signal > 0 && slow >= fast && n + 1 >= slow + signal,
        plan matches Some(p) ==> p.out_len + slow + signal == n + 2 && p.signal_trim + 1 == signal,
        plan matches Some(p) ==> {
            &&& p.out_len > 0
            &&& p.fast_seed_start + fast == slow
            &&& p.line_len + slow - 1 == n
            &&& p.out_len + p.signal_trim == p.line_len
        },
{
    if fast == 0 || slow == 0 || signal == 0 {
        return None;
    }
    if slow < fast {
        return None;
    }
    if n < slow {
        return None;
    }
    let line_len = n - (slow - 1);
    if line_len < signal {
        return None;
    }
    Some(
        MacdPlan {
            fast_seed_start: slow - fast,
            line_len,
            signal_trim: signal - 1,
            out_len: line_len - (signal - 1),
        },
    )
}

/// Plans MACDFIX (fast and slow periods fixed at 12 and 26) over `n` inputs.
pub fn macdfix_plan(n: usize, signal: usize) -> (plan: Option<MacdPlan>)
    ensures
        plan == macd_layout(n as nat, 12, 26, signal as nat),
        plan is Some <==> signal > 0 && n + 1 >= 26 + signal,
        plan matches Some(p) ==> {
            &&& p.fast_seed_start == 14
            &&& p.line_len + 25 == n
            &&& p.signal_trim + 1 == signal
            &&& p.out_len + 26 + signal == n + 2
        },
{
    if signal == 0 {
        return None;
    }
    if n < 25 || n - 25 < signal {
        return None;
    }
    let line_len = n - 25;
    Some(MacdPlan { fast_seed_start: 14, line_len, signal_trim: signal - 1, out_len: line_len - (signal - 1) })
}

/// How MACDEXT is computed.
#[derive(PartialEq, Eq, Structural, Clone, Copy, Debug)]
pub enum MacdextPlan {
    /// The output is empty.
    Empty,
    /// All three stages are EMA: MACDEXT is MACD with the same periods.
    AllEma,
    /// The fast moving average loses `fast_trim` leading values to align with
    /// the slow one, the MACD line loses `signal_trim` to align with the signal
    /// line, and each output has `out_len` values.
    Aligned { fast_trim: usize, signal_trim: usize, out_len: usize },
}

/// Whether the three MACDEXT `matype` codes all select EMA.
pub open spec fn all_ema(fast_type: nat, slow_type: nat, signal_type: nat) -> bool {
    fast_type == 1 && slow_type == 1 && signal_type == 1
}

/// Whether the MACDEXT periods are accepted: all positive and `slow >= fast`.
pub open spec fn macdext_periods_valid(fast: nat, slow: nat, signal: nat) -> bool {
    fast > 0 && slow > 0 && signal > 0 && slow >= fast
}

/// Output length of MACDEXT. All-EMA stages give MACD; otherwise the fast
/// moving average must consume no more leading inputs than the slow one (else
/// the two cannot be aligned and the output is empty), the MACD line is as
/// long as the slow average, and the signal average is taken over it.
pub open spec fn macdext_count(
    n: nat,
    fast: nat,
    fast_type: nat,
    slow: nat,
    slow_type: nat,
    signal: nat,
    signal_type: nat,
) -> nat {
    if !macdext_periods_valid(fast, slow, signal) {
        0
    } else if all_ema(fast_type, slow_type, signal_type) {
        macd_count(n, fast, slow, signal)
    } else {
        let fast_lb = kind_lookback(kind_of(fast_type), fast);
        let slow_lb = kind_lookback(kind_of(slow_type), slow);
        let signal_lb = kind_lookback(kind_of(signal_type), signal);
        if fast_lb > slow_lb {
            0
        } else {
            outputs_after(outputs_after(n, slow_lb), signal_lb)
        }
    }
}

/// Plans MACDEXT: moving averages of types `fast_type`, `slow_type` and
/// `signal_type` (as for `ma`) with periods `fast`, `slow` and `signal`. A
/// lookback too large for `usize` exceeds any input, so that moving average,
/// and the output, are empty.
pub fn macdext_plan(
    n: usize,
    fast: usize,
    fast_type: usize,
    slow: usize,
    slow_type: usize,
    signal: usize,
    signal_type: usize,
) -> (plan: MacdextPlan)
    ensures
        plan is AllEma ==> fast_type == 1 && slow_type == 1 && signal_type == 1,
        plan is AllEma <==> fast > 0 && signal > 0 && slow >= fast && fast_type == 1 && slow_type
            == 1 && signal_type == 1,
        plan is AllEma <==> macdext_periods_valid(fast as nat, slow as nat, signal as nat)
            && all_ema(fast_type as nat, slow_type as nat, signal_type as nat),
        plan is Empty <==> !(plan is AllEma) && macdext_count(
            n as nat,
            fast as nat,
            fast_type as nat,
            slow as nat,
            slow_type as nat,
            signal as nat,
            signal_type as nat,
        ) == 0,
        plan matches MacdextPlan::Aligned { fast_trim, signal_trim, out_len } ==> {
            &&& out_len == macdext_count(
                n as nat,
                fast as nat,
                fast_type as nat,
                slow as nat,
                slow_type as nat,
                signal as nat,
                signal_type as nat,
            )
            &&& fast_trim == kind_lookback(kind_of(slow_type as nat), slow as nat) - kind_lookback(
                kind_of(fast_type as nat),
                fast as nat,
            )
            &&& signal_trim == kind_lookback(kind_of(signal_type as nat), signal as nat)
            &&& out_len + signal_trim + kind_lookback(kind_of(slow_type as nat), slow as nat) == n
        },
{
    if fast == 0 || slow == 0 || signal == 0 {
        return MacdextPlan::Empty;
    }
    if slow < fast {
        return MacdextPlan::Empty;
    }
    if fast_type == 1 && slow_type == 1 && signal_type == 1 {
        return MacdextPlan::AllEma;
    }
    let slow_lb = match ma_lookback_checked(slow, slow_type) {
        Some(lb) => lb,
        None => return MacdextPlan::Empty,
    };
    let fast_lb = match ma_lookback_checked(fast, fast_type) {
        Some(lb) => lb,
        None => return MacdextPlan::Empty,
    };
    // The slow and the fast moving average must both produce output.
    if n <= slow_lb || n <= fast_lb {
        return MacdextPlan::Empty;
    }
    let align_trim = if slow_lb > fast_lb {
        slow_lb - fast_lb
    } else {
        0
    };
    let fast_len = n - fast_lb;
    if fast_len <= align_trim {
        return MacdextPlan::Empty;
    }
    let line_len = n - slow_lb;
    if fast_len - align_trim != line_len {
        return MacdextPlan::Empty;
    }
    let signal_lb = match ma_lookback_checked(signal, signal_type) {
        Some(lb) => lb,
        None => return MacdextPlan::Empty,
    };
    if line_len <= signal_lb {
        return MacdextPlan::Empty;
    }
    MacdextPlan::Aligned {
        fast_trim: align_trim,
        signal_trim: signal_lb,
        out_len: line_len - signal_lb,
    }
}

/// MACD produces output exactly when all three periods are positive, the
/// slow period is at least the fast one, and there are at least
/// `slow + signal - 1` inputs; it then yields `n - (slow - 1) - (signal - 1)`
/// values, the MACD line is `n - (slow - 1)` long, and the fast EMA is seeded
/// from input `slow - fast` on. No other relation between the periods (such as
/// the signal period against the fast one) matters.
pub proof fn lemma_macd_layout(n: nat, fast: nat, slow: nat, signal: nat)
    requires
        n <= usize::MAX,
        fast <= usize::MAX,
        slow <= usize::MAX,
        signal <= usize::MAX,
    ensures
        macd_layout(n, fast, slow, signal) is Some <==> fast > 0 && signal > 0 && slow >= fast && n
            + 1 >= slow + signal,
        macd_layout(n, fast, slow, signal) matches Some(p) ==> {
            &&& p.out_len + slow + signal == n + 2
            &&& p.line_len + slow == n + 1
            &&& p.signal_trim + 1 == signal
            &&& p.fast_seed_start + fast == slow
        },
{
}

/// MACDEXT is computed as MACD only when every one of its three stages, the
/// signal stage included, is coded EMA (`matype` 1); any other signal type
/// keeps its own moving average.
pub proof fn lemma_all_ema_needs_every_stage_ema(fast_type: nat, slow_type: nat, signal_type: nat)
    ensures
        all_ema(fast_type, slow_type, signal_type) ==> fast_type == 1 && slow_type == 1
            && signal_type == 1,
        signal_type != 1 ==> !all_ema(fast_type, slow_type, signal_type),
        fast_type == 1 && slow_type == 1 && signal_type == 1 ==> all_ema(
            fast_type,
            slow_type,
            signal_type,
        ),
{
}

/// MACD over `n` inputs yields `n - (slow - 1) - (signal - 1)` values whenever
/// that is positive and the periods are accepted.
pub proof fn lemma_macd_length(n: nat, fast: nat, slow: nat, signal: nat)
    requires
        fast > 0,
        slow >= fast,
        signal > 0,
        n + 2 > slow + signal,
    ensures
        macd_count(n, fast, slow, signal) + (slow - 1) + (signal - 1) == n,
{
}

/// With all three stages EMA, MACDEXT has exactly the output length of MACD.
pub proof fn lemma_macdext_all_ema_is_macd(n: nat, fast: nat, slow: nat, signal: nat)
    ensures
        macdext_count(n, fast, 1, slow, 1, signal, 1) == macd_count(n, fast, slow, signal),
{
}

/// When all three stages use the same algorithm, the fast and slow averages
/// always align, and MACDEXT yields what is left after the slow lookback and
/// then the signal lookback.
pub proof fn lemma_macdext_same_type(n: nat, fast: nat, slow: nat, signal: nat, matype: nat)
    requires
        macdext_periods_valid(fast, slow, signal),
    ensures
        macdext_count(n, fast, matype, slow, matype, signal, matype) == outputs_after(
            outputs_after(n, kind_lookback(kind_of(matype), slow)),
            kind_lookback(kind_of(matype), signal),
        ),
{
    lemma_lookback_monotone(kind_of(matype), fast, slow);
}

} // verus!
