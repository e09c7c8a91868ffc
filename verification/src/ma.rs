//! The moving-average dispatcher: which algorithm a `matype` code selects, and
//! how many leading inputs each algorithm consumes.

use vstd::prelude::*;
use crate::rolling::{outputs_after, window_count, lemma_outputs_after_compose};

verus! {

/// The moving-average algorithms that a `matype` code can select.
#[derive(PartialEq, Eq, Structural, Clone, Copy, Debug)]
pub enum MaKind {
    Sma,
    Ema,
    Wma,
    Dema,
    Tema,
    Trima,
    Kama,
    T3,
}

/// The algorithm selected by a `matype` code: 0 SMA, 1 EMA, 2 WMA, 3 DEMA,
/// 4 TEMA, 5 TRIMA, 6 KAMA, 8 T3; every other code (7, MAMA, among them)
/// falls back to EMA.
pub open spec fn kind_of(matype: nat) -> MaKind {
    if matype == 0 {
        MaKind::Sma
    } else if matype == 2 {
        MaKind::Wma
    } else if matype == 3 {
        MaKind::Dema
    } else if matype == 4 {
        MaKind::Tema
    } else if matype == 5 {
        MaKind::Trima
    } else if matype == 6 {
        MaKind::Kama
    } else if matype == 8 {
        MaKind::T3
    } else {
        MaKind::Ema
    }
}

/// Number of leading inputs an algorithm consumes before its first output.
/// A single EMA pass consumes `period - 1`; DEMA, TEMA and T3 chain two, three
/// and six such passes; KAMA needs one more than its period.
pub open spec fn kind_lookback(kind: MaKind, period: nat) -> nat {
    if period == 0 {
        0
    } else {
        match kind {
            MaKind::Sma => (period - 1) as nat,
            MaKind::Ema => (period - 1) as nat,
            MaKind::Wma => (period - 1) as nat,
            MaKind::Dema => (2 * (period - 1)) as nat,
            MaKind::Tema => (3 * (period - 1)) as nat,
            MaKind::Trima => (period - 1) as nat,
            MaKind::Kama => period,
            MaKind::T3 => (6 * (period - 1)) as nat,
        }
    }
}

/// Number of outputs an algorithm produces from `n` inputs.
pub open spec fn kind_output_count(kind: MaKind, n: nat, period: nat) -> nat {
    if period == 0 {
        0
    } else {
        outputs_after(n, kind_lookback(kind, period))
    }
}

/// The algorithm that a `matype` code selects.
pub fn ma_kind(matype: usize) -> (kind: MaKind)
    ensures
        kind == kind_of(matype as nat),
{
    match matype {
        0 => MaKind::Sma,
        1 => MaKind::Ema,
        2 => MaKind::Wma,
        3 => MaKind::Dema,
        4 => MaKind::Tema,
        5 => MaKind::Trima,
        6 => MaKind::Kama,
        8 => MaKind::T3,
        _ => MaKind::Ema,
    }
}

/// Whether a `matype` code selects an average over a plain window of `period`
/// values (SMA 0, EMA 1 and every code that falls back to it, WMA 2, TRIMA 5):
/// its first output covers exactly the first `period` inputs.
pub open spec fn is_window_code(matype: nat) -> bool {
    matype == 0 || matype == 1 || matype == 2 || matype == 5 || matype == 7 || matype > 8
}

/// Lookback (number of leading inputs consumed) for a given MA type and period.
pub fn ma_lookback(period: usize, matype: usize) -> (lookback: usize)
    requires
        kind_lookback(kind_of(matype as nat), period as nat) <= usize::MAX,
    ensures
        lookback == kind_lookback(kind_of(matype as nat), period as nat),
        period >= 1 && is_window_code(matype as nat) ==> lookback + 1 == period,
{
    if period == 0 {
        return 0;
    }
    match ma_kind(matype) {
        MaKind::Sma => period - 1,
        MaKind::Ema => period - 1,
        MaKind::Wma => period - 1,
        MaKind::Dema => 2 * (period - 1),
        MaKind::Tema => 3 * (period - 1),
        MaKind::Trima => period - 1,
        MaKind::Kama => period,
        MaKind::T3 => 6 * (period - 1),
    }
}

/// Lookback for a given MA type and period, or `None` when it exceeds `usize::MAX`.
pub fn ma_lookback_checked(period: usize, matype: usize) -> (lookback: Option<usize>)
    ensures
        match lookback {
            Some(lb) => lb == kind_lookback(kind_of(matype as nat), period as nat),
            None => kind_lookback(kind_of(matype as nat), period as nat) > usize::MAX,
        },
        period >= 1 && is_window_code(matype as nat) ==> lookback == Some((period - 1) as usize),
{
    if period == 0 {
        return Some(0);
    }
    match ma_kind(matype) {
        MaKind::Sma => Some(period - 1),
        MaKind::Ema => Some(period - 1),
        MaKind::Wma => Some(period - 1),
        MaKind::Dema => (period - 1).checked_mul(2),
        MaKind::Tema => (period - 1).checked_mul(3),
        MaKind::Trima => Some(period - 1),
        MaKind::Kama => Some(period),
        MaKind::T3 => (period - 1).checked_mul(6),
    }
}

/// Length of the output of the moving average selected by `matype` over `n`
/// inputs: the inputs past its lookback, or `0` when `period == 0` or the input
/// is not longer than the lookback.
pub fn ma_output_len(n: usize, period: usize, matype: usize) -> (len: usize)
    ensures
        len == kind_output_count(kind_of(matype as nat), n as nat, period as nat),
        is_window_code(matype as nat) ==> len == window_count(n as nat, period as nat),
{
    if period == 0 {
        return 0;
    }
    match ma_lookback_checked(period, matype) {
        Some(lookback) => {
            if n > lookback {
                n - lookback
            } else {
                0
            }
        },
        // A lookback beyond `usize::MAX` exceeds every input length.
        None => 0,
    }
}

} // verus!

verus! {

/// Number of outputs left after `passes` successive EMA passes of the same
/// `period` over `n` inputs, each pass consuming `period - 1` leading values
/// of the series before it.
pub open spec fn ema_passes(n: nat, period: nat, passes: nat) -> nat
    decreases passes,
{
    if passes == 0 {
        n
    } else {
        kind_output_count(MaKind::Ema, ema_passes(n, period, (passes - 1) as nat), period)
    }
}

/// The split of a TRIMA period into its two SMA periods: for an odd period
/// both are `(period + 1) / 2`; for an even one they are `period / 2 + 1` and
/// `period / 2`.
pub open spec fn trima_split(period: nat) -> (nat, nat) {
    if period % 2 == 1 {
        (((period + 1) / 2) as nat, ((period + 1) / 2) as nat)
    } else {
        ((period / 2 + 1) as nat, (period / 2) as nat)
    }
}

/// The two SMA periods whose composition is TRIMA of `period`.
pub fn trima_periods(period: usize) -> (periods: (usize, usize))
    ensures
        periods.0 as nat == trima_split(period as nat).0,
        periods.1 as nat == trima_split(period as nat).1,
        periods.0 + periods.1 == period + 1,
        periods.0 == periods.1 + (if period % 2 == 0 {
            1usize
        } else {
            0usize
        }),
{
    if period % 2 == 1 {
        let p = period / 2 + 1;
        (p, p)
    } else {
        (period / 2 + 1, period / 2)
    }
}

/// Every `matype` code other than 0 to 6 and 8 (so 7, MAMA, too) selects EMA,
/// with EMA's lookback and output length.
pub proof fn lemma_unknown_matype_is_ema(matype: nat, n: nat, period: nat)
    requires
        matype == 7 || matype > 8,
    ensures
        kind_of(matype) == MaKind::Ema,
        kind_lookback(kind_of(matype), period) == kind_lookback(kind_of(1), period),
        kind_output_count(kind_of(matype), n, period) == kind_output_count(kind_of(1), n, period),
{
}

/// The `matype` codes select, in order, SMA, EMA, WMA, DEMA, TEMA, TRIMA,
/// KAMA, EMA (for MAMA) and T3; each of 0 to 6 and 8 selects a different one.
pub proof fn lemma_matype_table()
    ensures
        kind_of(0) == MaKind::Sma,
        kind_of(1) == MaKind::Ema,
        kind_of(2) == MaKind::Wma,
        kind_of(3) == MaKind::Dema,
        kind_of(4) == MaKind::Tema,
        kind_of(5) == MaKind::Trima,
        kind_of(6) == MaKind::Kama,
        kind_of(7) == MaKind::Ema,
        kind_of(8) == MaKind::T3,
{
}

/// `passes` chained EMA passes consume `passes * (period - 1)` leading inputs.
pub proof fn lemma_ema_passes(n: nat, period: nat, passes: nat)
    requires
        period >= 1,
    ensures
        ema_passes(n, period, passes) == outputs_after(n, (passes * (period - 1)) as nat),
    decreases passes,
{
    if passes > 0 {
        let prev = (passes - 1) as nat;
        let step = (period - 1) as nat;
        lemma_ema_passes(n, period, prev);
        assert(prev * step >= 0 && passes * step == prev * step + step) by (nonlinear_arith)
            requires
                passes == prev + 1,
        ;
        lemma_outputs_after_compose(n, prev * step, step);
    } else {
        assert(passes * (period - 1) == 0) by (nonlinear_arith)
            requires
                passes == 0,
        ;
    }
}

/// DEMA is aligned on EMA of EMA, TEMA on three chained EMAs, and T3 on six:
/// their output lengths are those of two, three and six chained EMA passes.
pub proof fn lemma_chained_ema_lengths(n: nat, period: nat)
    ensures
        kind_output_count(MaKind::Dema, n, period) == ema_passes(n, period, 2),
        kind_output_count(MaKind::Tema, n, period) == ema_passes(n, period, 3),
        kind_output_count(MaKind::T3, n, period) == ema_passes(n, period, 6),
{
    reveal_with_fuel(ema_passes, 7);
    if period >= 1 {
        lemma_ema_passes(n, period, 2);
        lemma_ema_passes(n, period, 3);
        lemma_ema_passes(n, period, 6);
    }
}

/// TRIMA is an SMA of an SMA: its output length is that of SMA of the first
/// split period followed by SMA of the second.
pub proof fn lemma_trima_is_sma_of_sma(n: nat, period: nat)
    requires
        period >= 1,
    ensures
        kind_output_count(MaKind::Trima, n, period) == kind_output_count(
            MaKind::Sma,
            kind_output_count(MaKind::Sma, n, trima_split(period).0),
            trima_split(period).1,
        ),
{
}

/// The two SMA periods of TRIMA add up to `period + 1` and are as equal as
/// that allows: the same for an odd period, the first one longer by one for
/// an even period. This is what makes the combined weights triangular.
pub proof fn lemma_trima_split_balanced(period: nat)
    ensures
        trima_split(period).0 + trima_split(period).1 == period + 1,
        trima_split(period).0 == trima_split(period).1 + (if period % 2 == 0 {
            1nat
        } else {
            0nat
        }),
{
}

/// How the lookbacks of the algorithms relate. An EMA (seeded with the SMA of
/// the first `period` inputs), an SMA, a WMA and a TRIMA all produce their
/// first output from exactly the first `period` inputs; DEMA, TEMA and T3
/// consume two, three and six times what one EMA pass does; KAMA needs one
/// input more than an EMA.
pub proof fn lemma_lookback_relations(period: nat)
    requires
        period >= 1,
    ensures
        kind_lookback(MaKind::Ema, period) + 1 == period,
        kind_lookback(MaKind::Sma, period) + 1 == period,
        kind_lookback(MaKind::Wma, period) + 1 == period,
        kind_lookback(MaKind::Trima, period) + 1 == period,
        kind_lookback(MaKind::Kama, period) == kind_lookback(MaKind::Ema, period) + 1,
        kind_lookback(MaKind::Dema, period) == 2 * kind_lookback(MaKind::Ema, period),
        kind_lookback(MaKind::Tema, period) == 3 * kind_lookback(MaKind::Ema, period),
        kind_lookback(MaKind::T3, period) == 6 * kind_lookback(MaKind::Ema, period),
{
}

/// The plain-window averages (SMA, EMA, WMA, TRIMA) yield one output per full
/// window of `period` inputs.
pub proof fn lemma_window_averages(n: nat, period: nat)
    ensures
        kind_output_count(MaKind::Sma, n, period) == window_count(n, period),
        kind_output_count(MaKind::Ema, n, period) == window_count(n, period),
        kind_output_count(MaKind::Wma, n, period) == window_count(n, period),
        kind_output_count(MaKind::Trima, n, period) == window_count(n, period),
{
}

/// For a fixed algorithm, a longer period never consumes fewer leading inputs.
pub proof fn lemma_lookback_monotone(kind: MaKind, p: nat, q: nat)
    requires
        p <= q,
    ensures
        kind_lookback(kind, p) <= kind_lookback(kind, q),
{
}

/// Whenever a moving average produces output, its length and its lookback add
/// up to the input length.
pub proof fn lemma_output_and_lookback(kind: MaKind, n: nat, period: nat)
    requires
        kind_output_count(kind, n, period) > 0,
    ensures
        kind_output_count(kind, n, period) + kind_lookback(kind, period) == n,
{
}

} // verus!
