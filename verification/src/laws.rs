use vstd::prelude::*;
use crate::arith::{lemma_blend_between, lemma_blend_fixed, lemma_blend_progress};
use crate::filter::IntSeriesEwmaFilter;

verus! {

/// Bounding law: in a well-formed, seeded filter, one steady-state
/// push keeps the average inside the fading envelope, so
/// `local_min <= average <= local_max` is an invariant of the stream.
pub proof fn lemma_step_preserves_bounds(s: IntSeriesEwmaFilter, v: i64)
    requires
        s.wf(),
        s.seeded(),
    ensures
        s.next_min(v) <= s.next_average(v) <= s.next_max(v),
{
    let num = s.alpha_numerator as int;
    let den = s.alpha_denominator as int;
    lemma_blend_between(s.average as int, v as int, num, den);
    lemma_blend_between(s.local_max as int, v as int, num, den);
    lemma_blend_between(s.local_min as int, v as int, num, den);
}

/// Monotone-extension law: a sample beyond the current envelope makes
/// the matching bound snap to that sample exactly, never merely fade.
pub proof fn lemma_new_extreme_snaps(s: IntSeriesEwmaFilter, v: i64)
    ensures
        v > s.local_max ==> s.next_max(v) == v,
        v < s.local_min ==> s.next_min(v) == v,
{
}

/// Convergence law, settled part: once the average and both bounds sit
/// at a constant `k`, pushing `k` again leaves all three at `k`, so a
/// constant stream stays converged forever. A fresh filter reaches
/// this state on its very first push of `k`.
pub proof fn lemma_constant_stream_settles(s: IntSeriesEwmaFilter, k: i64)
    requires
        s.weights_ok(),
        s.average == k,
        s.local_min == k,
        s.local_max == k,
    ensures
        s.next_average(k) == k,
        s.next_min(k) == k,
        s.next_max(k) == k,
{
    lemma_blend_fixed(k as int, s.alpha_numerator as int, s.alpha_denominator as int);
}

/// Fading law: a sample that lands between a bound and the updated
/// average pulls that bound monotonically toward it, strictly so while
/// the scaled remaining distance covers a whole denominator; a sample
/// on the inner side of the updated average leaves the bound alone.
/// Under a constant stream this is what lets the engaged side of the
/// envelope contract toward the samples.
pub proof fn lemma_fade_moves_bound_toward_sample(s: IntSeriesEwmaFilter, v: i64)
    requires
        s.weights_ok(),
    ensures
        s.fades_max(v) ==> v <= s.next_max(v) <= s.local_max,
        s.fades_max(v) && s.alpha_numerator * (s.local_max - v) >= s.alpha_denominator
            ==> s.next_max(v) <= s.local_max - 1,
        v <= s.local_max && !s.fades_max(v) ==> s.next_max(v) == s.local_max,
        s.fades_min(v) ==> s.local_min <= s.next_min(v) <= v,
        s.fades_min(v) && s.alpha_numerator * (v - s.local_min) >= s.alpha_denominator
            ==> s.next_min(v) >= s.local_min + 1,
        v >= s.local_min && !s.fades_min(v) ==> s.next_min(v) == s.local_min,
{
    let num = s.alpha_numerator as int;
    let den = s.alpha_denominator as int;
    lemma_blend_between(s.local_max as int, v as int, num, den);
    lemma_blend_progress(s.local_max as int, v as int, num, den);
    lemma_blend_between(s.local_min as int, v as int, num, den);
    lemma_blend_progress(s.local_min as int, v as int, num, den);
}

/// Convergence law, approach part: pushing a constant `k` never moves
/// the average away from `k`, and moves it strictly closer as long as
/// the scaled remaining distance covers a whole denominator. The
/// average therefore settles within the ratio's precision of `k`.
pub proof fn lemma_constant_push_approaches(s: IntSeriesEwmaFilter, k: i64)
    requires
        s.weights_ok(),
    ensures
        s.average <= k ==> s.average <= s.next_average(k) <= k,
        k <= s.average ==> k <= s.next_average(k) <= s.average,
        s.alpha_numerator * (k - s.average) >= s.alpha_denominator ==> s.next_average(k)
            >= s.average + 1,
        s.alpha_numerator * (s.average - k) >= s.alpha_denominator ==> s.next_average(k)
            <= s.average - 1,
{
    let num = s.alpha_numerator as int;
    let den = s.alpha_denominator as int;
    lemma_blend_between(s.average as int, k as int, num, den);
    lemma_blend_progress(s.average as int, k as int, num, den);
}

} // verus!
