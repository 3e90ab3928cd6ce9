use vstd::prelude::*;
use vstd::arithmetic::div_mod::{
    lemma_div_by_self, lemma_div_is_ordered, lemma_div_multiples_vanish, lemma_div_of0,
    lemma_div_pos_is_pos,
};
use vstd::arithmetic::mul::{lemma_mul_inequality, lemma_mul_unary_negation};

verus! {

/// `x` lies within the range of the `i64` machine type.
pub open spec fn fits_i64(x: int) -> bool {
    i64::MIN <= x <= i64::MAX
}

/// Truncating quotient: the result of Rust's `/` on signed integers
/// with a positive divisor (rounds toward zero, where `/` on `int`
/// would round toward negative infinity).
pub open spec fn tdiv(x: int, d: int) -> int {
    if x >= 0 {
        x / d
    } else {
        -((-x) / d)
    }
}

/// One weighted step of `cur` toward `target`: the fraction
/// `num / den` of the remaining distance is added on, with the
/// multiplication performed before the truncating division so that
/// small distances are not rounded away entirely.
pub open spec fn blend(cur: int, target: int, num: int, den: int) -> int {
    cur + tdiv(num * (target - cur), den)
}

/// The scaled, truncated fraction of a distance `d` never overshoots
/// `d` and never points away from it: for a proper fraction
/// `num / den`, `tdiv(num * d, den)` lies between `0` and `d`.
pub proof fn lemma_tdiv_scaled_bounds(d: int, num: int, den: int)
    requires
        0 < num < den,
    ensures
        d >= 0 ==> 0 <= tdiv(num * d, den) <= d,
        d <= 0 ==> d <= tdiv(num * d, den) <= 0,
{
    if d >= 0 {
        lemma_mul_inequality(0, num, d);
        lemma_mul_inequality(num, den, d);
        lemma_div_pos_is_pos(num * d, den);
        lemma_div_is_ordered(num * d, den * d, den);
        lemma_div_multiples_vanish(d, den);
    } else {
        let e = -d;
        lemma_mul_unary_negation(num, d);
        lemma_mul_inequality(0, num, e);
        lemma_mul_inequality(num, den, e);
        lemma_div_pos_is_pos(num * e, den);
        lemma_div_is_ordered(num * e, den * e, den);
        lemma_div_multiples_vanish(e, den);
    }
}

/// Blending toward a target stays between the current value and the
/// target, whichever side the target lies on.
pub proof fn lemma_blend_between(cur: int, target: int, num: int, den: int)
    requires
        0 < num < den,
    ensures
        cur <= target ==> cur <= blend(cur, target, num, den) <= target,
        target <= cur ==> target <= blend(cur, target, num, den) <= cur,
{
    lemma_tdiv_scaled_bounds(target - cur, num, den);
}

/// Blending a value toward itself leaves it unchanged.
pub proof fn lemma_blend_fixed(cur: int, num: int, den: int)
    requires
        0 < num < den,
    ensures
        blend(cur, cur, num, den) == cur,
{
    lemma_div_of0(den);
}

/// One executable weighted step of `cur` toward `target`, exactly as
/// the spec-level `blend` describes it: multiply first, then divide
/// with Rust's truncating `/`.
pub(crate) fn blend_toward(cur: i64, target: i64, num: i64, den: i64) -> (r: i64)
    requires
        0 < num < den,
        fits_i64(target - cur),
        fits_i64(num * (target - cur)),
    ensures
        r == blend(cur as int, target as int, num as int, den as int),
        cur <= target ==> cur <= r <= target,
        target <= cur ==> target <= r <= cur,
{
    let diff: i64 = target - cur;
    let scaled: i64 = num * diff;
    let q: i64 = scaled / den;
    proof {
        lemma_tdiv_scaled_bounds(diff as int, num as int, den as int);
    }
    cur + q
}

/// While the remaining scaled distance is at least one whole
/// denominator, a blend step moves by at least one.
pub proof fn lemma_blend_progress(cur: int, target: int, num: int, den: int)
    requires
        0 < num < den,
    ensures
        num * (target - cur) >= den ==> blend(cur, target, num, den) >= cur + 1,
        num * (cur - target) >= den ==> blend(cur, target, num, den) <= cur - 1,
{
    let d = target - cur;
    if num * d >= den {
        lemma_div_is_ordered(den, num * d, den);
        lemma_div_by_self(den);
    }
    if num * (cur - target) >= den {
        lemma_mul_unary_negation(num, d);
        lemma_div_is_ordered(den, num * (-d), den);
        lemma_div_by_self(den);
    }
}

} // verus!
