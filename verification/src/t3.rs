//! The warm-up cascade of T3.
//!
//! T3 chains six EMAs. During warm-up each input value is handed down the
//! chain: a stage that has not yet seen `period` values only accumulates it for
//! its SMA seed and stops the cascade; the stage that receives its
//! `period`-th value computes its seed and passes the seed on; a seeded stage
//! smooths the value and passes the result on. Each stage counts the values it
//! has received. This module decides, for each warm-up input and stage, what
//! the stage does, and proves that the counting cascade has a closed form:
//! stage `s` first receives a value at input `s * (period - 1)`, and every
//! stage is seeded by input `6 * (period - 1)`, the T3 lookback.

use vstd::prelude::*;

verus! {

/// What a stage of the T3 cascade does with the value it receives.
#[derive(PartialEq, Eq, Structural, Clone, Copy, Debug)]
pub enum T3Step {
    /// Add the value to the seed sum and stop the cascade.
    Accumulate,
    /// Add the value to the seed sum, set the stage to the seed mean, and pass it on.
    Seed,
    /// Smooth the value into the stage's EMA and pass the result on.
    Smooth,
}

/// Whether the value of warm-up input `i` reaches stage `s`: stage 0 receives
/// every input; a later stage receives it when the stage before has just
/// received and by then counted at least `period` values (and `i` is past
/// `s * (period - 1)`).
pub open spec fn t3_reaches(i: nat, s: nat, period: nat) -> bool
    decreases i, s, 0nat,
{
    if s == 0 {
        true
    } else {
        &&& t3_reaches(i, (s - 1) as nat, period)
        &&& t3_received(i, (s - 1) as nat, period) >= period
        &&& i >= s * (period - 1)
    }
}

/// Number of values stage `s` has received once inputs `0..=i` have gone
/// through the cascade.
pub open spec fn t3_received(i: nat, s: nat, period: nat) -> nat
    decreases i, s, 1nat,
{
    (if i == 0 {
        0
    } else {
        t3_received((i - 1) as nat, s, period)
    }) + (if t3_reaches(i, s, period) {
        1nat
    } else {
        0nat
    })
}

/// What stage `s` does at warm-up input `i`, or `None` when the value does not reach it.
pub open spec fn t3_step(i: nat, s: nat, period: nat) -> Option<T3Step> {
    if !t3_reaches(i, s, period) {
        None
    } else if t3_received(i, s, period) < period {
        Some(T3Step::Accumulate)
    } else if t3_received(i, s, period) == period {
        Some(T3Step::Seed)
    } else {
        Some(T3Step::Smooth)
    }
}

/// First warm-up input that reaches stage `s`.
pub open spec fn stage_start(s: nat, period: nat) -> int {
    s * (period - 1)
}

proof fn lemma_stage_start(s: nat, period: nat)
    requires
        period >= 2,
    ensures
        stage_start(s, period) >= 0,
        s == 0 ==> stage_start(s, period) == 0,
        s > 0 ==> stage_start(s, period) == stage_start((s - 1) as nat, period) + period - 1,
        s > 0 ==> stage_start(s, period) >= period - 1,
{
    assert(s * (period - 1) >= 0) by (nonlinear_arith)
        requires
            period >= 2,
    ;
    if s == 0 {
        assert(s * (period - 1) == 0) by (nonlinear_arith)
            requires
                s == 0,
        ;
    }
    if s > 0 {
        assert(s * (period - 1) == (s - 1) * (period - 1) + period - 1) by (nonlinear_arith);
        assert((s - 1) * (period - 1) >= 0) by (nonlinear_arith)
            requires
                period >= 2,
                s > 0,
        ;
    }
}

/// The cascade in closed form: input `i` reaches stage `s` exactly when
/// `i >= s * (period - 1)`, and stage `s` has then received
/// `i - s * (period - 1) + 1` values (none before).
pub proof fn lemma_t3_cascade(i: nat, s: nat, period: nat)
    requires
        period >= 2,
    ensures
        t3_reaches(i, s, period) <==> i >= stage_start(s, period),
        t3_received(i, s, period) == (if i >= stage_start(s, period) {
            (i - stage_start(s, period) + 1) as nat
        } else {
            0
        }),
    decreases i, s,
{
    lemma_stage_start(s, period);
    if s > 0 {
        lemma_t3_cascade(i, (s - 1) as nat, period);
    }
    if i > 0 {
        lemma_t3_cascade((i - 1) as nat, s, period);
    }
    // One unfolding of the count: what was counted before input `i`, plus `i` itself.
    assert(t3_received(i, s, period) == (if i == 0 {
        0
    } else {
        t3_received((i - 1) as nat, s, period)
    }) + (if t3_reaches(i, s, period) {
        1nat
    } else {
        0nat
    }));
}

/// Every stage has received its seed value by the last warm-up input
/// `6 * (period - 1)`: each of the six stages has counted at least `period`
/// values, and the last stage is seeded exactly there.
pub proof fn lemma_t3_seeded_at_lookback(period: nat, s: nat)
    requires
        period >= 2,
        s < 6,
    ensures
        t3_received((6 * (period - 1)) as nat, s, period) >= period,
        t3_step((6 * (period - 1)) as nat, 5, period) == Some(T3Step::Seed),
{
    let last = (6 * (period - 1)) as nat;
    lemma_t3_cascade(last, s, period);
    lemma_t3_cascade(last, 5, period);
    assert(s * (period - 1) <= 5 * (period - 1)) by (nonlinear_arith)
        requires
            s < 6,
            period >= 2,
    ;
}

/// What stage `stage` of the T3 cascade does with warm-up input `i`.
pub fn t3_warmup_step(i: usize, stage: usize, period: usize) -> (step: Option<T3Step>)
    requires
        period >= 2,
        stage < 6,
        6 * (period - 1) <= usize::MAX,
    ensures
        step == t3_step(i as nat, stage as nat, period as nat),
{
    proof {
        lemma_t3_cascade(i as nat, stage as nat, period as nat);
        assert(stage * (period - 1) <= 6 * (period - 1)) by (nonlinear_arith)
            requires
                stage < 6,
                period >= 2,
        ;
    }
    let start = stage * (period - 1);
    if i < start {
        return None;
    }
    let before = i - start;
    if before < period - 1 {
        Some(T3Step::Accumulate)
    } else if before == period - 1 {
        Some(T3Step::Seed)
    } else {
        Some(T3Step::Smooth)
    }
}

} // verus!
