//! Which rolling windows contain a missing value.
//!
//! LINEARREG outputs a missing value for every window that holds one, and
//! recomputes its running sums from scratch on the first clean window after a
//! dirty one. Given which inputs are missing, this module decides, window by
//! window, whether the window is dirty, keeping a running count of the missing
//! values inside it as the window slides.

use vstd::prelude::*;

verus! {

/// Number of `true` entries in `s`.
pub open spec fn count_true(s: Seq<bool>) -> nat
    decreases s.len(),
{
    if s.len() == 0 {
        0
    } else {
        count_true(s.drop_last()) + (if s.last() {
            1nat
        } else {
            0nat
        })
    }
}

/// Whether the window of `period` entries of `missing` that starts at `start`
/// holds a missing value.
pub open spec fn window_dirty(missing: Seq<bool>, start: int, period: int) -> bool {
    exists|j: int| start <= j < start + period && #[trigger] missing[j]
}

/// A sequence has a `true` entry exactly when it counts at least one.
proof fn lemma_count_positive(s: Seq<bool>)
    ensures
        count_true(s) > 0 <==> exists|j: int| 0 <= j < s.len() && #[trigger] s[j],
    decreases s.len(),
{
    if s.len() > 0 {
        lemma_count_positive(s.drop_last());
        if count_true(s.drop_last()) > 0 {
            let j = choose|j: int| 0 <= j < s.drop_last().len() && #[trigger] s.drop_last()[j];
            assert(s[j]);
        }
        if exists|j: int| 0 <= j < s.len() && #[trigger] s[j] {
            let j = choose|j: int| 0 <= j < s.len() && #[trigger] s[j];
            if j < s.len() - 1 {
                assert(s.drop_last()[j]);
            }
        }
    }
}

/// A count never exceeds the length of what is counted.
proof fn lemma_count_bound(s: Seq<bool>)
    ensures
        count_true(s) <= s.len(),
    decreases s.len(),
{
    if s.len() > 0 {
        lemma_count_bound(s.drop_last());
    }
}

/// Counting over `s[a..b + 1]` adds the entry at `b` to the count over `s[a..b]`.
proof fn lemma_count_extend(s: Seq<bool>, a: int, b: int)
    requires
        0 <= a <= b < s.len(),
    ensures
        count_true(s.subrange(a, b + 1)) == count_true(s.subrange(a, b)) + (if s[b] {
            1nat
        } else {
            0nat
        }),
{
    assert(s.subrange(a, b + 1).drop_last() =~= s.subrange(a, b));
}

/// Counting over `s[a..b]` is the entry at `a` plus the count over `s[a + 1..b]`.
proof fn lemma_count_shrink_front(s: Seq<bool>, a: int, b: int)
    requires
        0 <= a < b <= s.len(),
    ensures
        count_true(s.subrange(a, b)) == count_true(s.subrange(a + 1, b)) + (if s[a] {
            1nat
        } else {
            0nat
        }),
    decreases b - a,
{
    if b == a + 1 {
        assert(s.subrange(a, b).drop_last() =~= s.subrange(a, a));
        assert(s.subrange(a + 1, b) =~= s.subrange(a, a));
    } else {
        lemma_count_shrink_front(s, a, b - 1);
        lemma_count_extend(s, a, b - 1);
        lemma_count_extend(s, a + 1, b - 1);
    }
}

/// A window is dirty exactly when its count of missing values is positive.
proof fn lemma_dirty_iff_count(s: Seq<bool>, start: int, period: int)
    requires
        0 <= start,
        0 <= period,
        start + period <= s.len(),
    ensures
        window_dirty(s, start, period) <==> count_true(s.subrange(start, start + period)) > 0,
{
    let w = s.subrange(start, start + period);
    lemma_count_positive(w);
    if window_dirty(s, start, period) {
        let j = choose|j: int| start <= j < start + period && #[trigger] s[j];
        assert(w[j - start]);
    }
    if exists|j: int| 0 <= j < w.len() && #[trigger] w[j] {
        let j = choose|j: int| 0 <= j < w.len() && #[trigger] w[j];
        assert(s[start + j]);
    }
}

/// For each window of `period` consecutive entries of `missing` (one per
/// output, `missing.len() - period + 1` of them), whether it holds a missing
/// value.
pub fn window_nan_flags(missing: &Vec<bool>, period: usize) -> (dirty: Vec<bool>)
    requires
        1 <= period <= missing.len(),
    ensures
        dirty.len() == missing.len() - period + 1,
        forall|k: int|
            0 <= k < dirty.len() ==> #[trigger] dirty[k] == window_dirty(missing@, k, period as int),
        forall|k: int|
            0 <= k < dirty.len() ==> (#[trigger] dirty[k] <==> exists|j: int|
                k <= j < k + period && missing@[j]),
{
    let n = missing.len();
    let out_len = n - period + 1;
    let mut count: usize = 0;
    let mut i: usize = 0;
    while i < period
        invariant
            i <= period <= n,
            n == missing.len(),
            count == count_true(missing@.subrange(0, i as int)),
            count <= i,
        decreases period - i,
    {
        proof {
            lemma_count_extend(missing@, 0, i as int);
        }
        if missing[i] {
            count = count + 1;
        }
        i = i + 1;
    }
    let mut dirty: Vec<bool> = Vec::with_capacity(out_len);
    proof {
        lemma_dirty_iff_count(missing@, 0, period as int);
    }
    dirty.push(count > 0);
    let mut k: usize = 1;
    while k < out_len
        invariant
            1 <= k <= out_len,
            out_len == n - period + 1,
            1 <= period <= n,
            n == missing.len(),
            dirty.len() == k,
            count == count_true(missing@.subrange(k - 1, k - 1 + period)),
            count <= period,
            forall|j: int|
                0 <= j < k ==> #[trigger] dirty[j] == window_dirty(missing@, j, period as int),
        decreases out_len - k,
    {
        let leaving = k - 1;
        let entering = k - 1 + period;
        proof {
            lemma_count_extend(missing@, leaving as int, entering as int);
            lemma_count_shrink_front(missing@, leaving as int, entering + 1);
            lemma_dirty_iff_count(missing@, k as int, period as int);
            lemma_count_bound(missing@.subrange(k as int, k + period));
        }
        if missing[entering] {
            count = count + 1;
        }
        if missing[leaving] {
            count = count - 1;
        }
        dirty.push(count > 0);
        k = k + 1;
    }
    dirty
}

} // verus!

verus! {

/// How LINEARREG produces the output of one window.
#[derive(PartialEq, Eq, Structural, Clone, Copy, Debug)]
pub enum WindowStep {
    /// The window holds a missing value: the output is missing.
    Missing,
    /// The window is clean but the one before is not (or there is none):
    /// the running sums are computed afresh over the window.
    Restart,
    /// The window and the one before are clean: the running sums slide by one.
    Slide,
}

/// The step LINEARREG takes at window `k`.
pub open spec fn regression_step(missing: Seq<bool>, k: int, period: int) -> WindowStep {
    if window_dirty(missing, k, period) {
        WindowStep::Missing
    } else if k == 0 || window_dirty(missing, k - 1, period) {
        WindowStep::Restart
    } else {
        WindowStep::Slide
    }
}

/// What the step at window `k` means in terms of the missing inputs.
pub open spec fn regression_step_meaning(missing: Seq<bool>, k: int, period: int) -> bool {
    &&& (regression_step(missing, k, period) == WindowStep::Missing <==> exists|j: int|
        k <= j < k + period && missing[j])
    &&& (regression_step(missing, k, period) == WindowStep::Restart <==> (forall|j: int|
        k <= j < k + period ==> !missing[j]) && (k == 0 || exists|j: int|
        k - 1 <= j < k - 1 + period && missing[j]))
}

/// A window's output is missing exactly when one of its `period` inputs, at
/// any position, is missing; a clean window starts its sums over exactly when
/// it is the first window or the window before it held a missing input;
/// otherwise it slides.
pub proof fn lemma_regression_step(missing: Seq<bool>, k: int, period: int)
    requires
        period >= 1,
        0 <= k,
        k + period <= missing.len(),
    ensures
        regression_step(missing, k, period) == WindowStep::Missing <==> exists|j: int|
            k <= j < k + period && missing[j],
        regression_step(missing, k, period) == WindowStep::Restart <==> (forall|j: int|
            k <= j < k + period ==> !missing[j]) && (k == 0 || exists|j: int|
            k - 1 <= j < k - 1 + period && missing[j]),
        regression_step(missing, k, period) == WindowStep::Slide <==> k != 0 && (forall|j: int|
            k - 1 <= j < k + period ==> !missing[j]),
{
}

/// For each window of `period` entries of `missing`, how LINEARREG computes
/// its output: missing, from scratch, or by sliding the previous sums.
pub fn linearreg_steps(missing: &Vec<bool>, period: usize) -> (steps: Vec<WindowStep>)
    requires
        1 <= period <= missing.len(),
    ensures
        steps.len() == missing.len() - period + 1,
        forall|k: int|
            0 <= k < steps.len() ==> #[trigger] steps[k] == regression_step(
                missing@,
                k,
                period as int,
            ),
        forall|k: int|
            0 <= k < steps.len() ==> (#[trigger] steps[k] == WindowStep::Missing <==> exists|j: int|
                k <= j < k + period && missing@[j]),
        forall|k: int|
            0 <= k < steps.len() ==> (#[trigger] steps[k] == WindowStep::Restart <==> (forall|j: int|
                k <= j < k + period ==> !missing@[j]) && (k == 0 || exists|j: int|
                k - 1 <= j < k - 1 + period && missing@[j])),
{
    proof {
        assert forall|k: int| 0 <= k < missing.len() - period + 1 implies regression_step_meaning(
            missing@,
            k,
            period as int,
        ) by {
            lemma_regression_step(missing@, k, period as int);
        }
    }
    let dirty = window_nan_flags(missing, period);
    let mut steps: Vec<WindowStep> = Vec::with_capacity(dirty.len());
    let mut k: usize = 0;
    while k < dirty.len()
        invariant
            k <= dirty.len(),
            dirty.len() == missing.len() - period + 1,
            forall|j: int|
                0 <= j < dirty.len() ==> #[trigger] dirty[j] == window_dirty(
                    missing@,
                    j,
                    period as int,
                ),
            steps.len() == k,
            forall|j: int|
                0 <= j < k ==> #[trigger] steps[j] == regression_step(missing@, j, period as int),
        decreases dirty.len() - k,
    {
        let step = if dirty[k] {
            WindowStep::Missing
        } else if k == 0 || dirty[k - 1] {
            WindowStep::Restart
        } else {
            WindowStep::Slide
        };
        steps.push(step);
        k = k + 1;
    }
    steps
}

/// Which MIDPOINT outputs are missing: MIDPOINT checks only the oldest value
/// of each window, so output `k` is missing exactly when input `k` is.
pub fn midpoint_missing_outputs(missing: &Vec<bool>, period: usize) -> (out: Vec<bool>)
    requires
        1 <= period <= missing.len(),
    ensures
        out.len() == missing.len() - period + 1,
        forall|k: int| 0 <= k < out.len() ==> #[trigger] out[k] == missing[k],
{
    let out_len = missing.len() - period + 1;
    let mut out: Vec<bool> = Vec::with_capacity(out_len);
    let mut k: usize = 0;
    while k < out_len
        invariant
            k <= out_len,
            out_len == missing.len() - period + 1,
            1 <= period <= missing.len(),
            out.len() == k,
            forall|j: int| 0 <= j < k ==> #[trigger] out[j] == missing[j],
        decreases out_len - k,
    {
        out.push(missing[k]);
        k = k + 1;
    }
    out
}

} // verus!
