use vstd::prelude::*;
use core::ops::Range;
use crate::arith::{blend, blend_toward, fits_i64};

verus! {

/// A streaming statistic over one series of samples: an exponentially
/// weighted moving average together with a fading local minimum/maximum
/// envelope.
///
/// Reading the average or the range never changes the filter, so the
/// read operations are pure functions of the state exposed by the three
/// spec accessors.
pub trait EwmaFilter<T> {
    /// The current average, as the reads below report it.
    spec fn spec_average(&self) -> T;

    /// The current lower bound of the fading envelope.
    spec fn spec_min(&self) -> T;

    /// The current upper bound of the fading envelope.
    spec fn spec_max(&self) -> T;

    /// When a sample may be pushed: the weighting must be sane and the
    /// update arithmetic must stay within the sample type.
    spec fn push_allowed(&self, new_value: T) -> bool;

    /// Push the next sample in the series into the filter.
    /// Returns the updated exponentially weighted moving average.
    fn push_sample(&mut self, new_value: T) -> (r: T)
        requires
            old(self).push_allowed(new_value),
        ensures
            r == final(self).spec_average(),
    ;

    /// Returns the cached exponentially weighted moving average.
    fn ewma_average(&self) -> (r: T)
        ensures
            r == self.spec_average(),
    ;

    /// Returns the local minimum and maximum as a half-open interval.
    fn local_range(&self) -> (r: Range<T>)
        ensures
            r.start == self.spec_min(),
            r.end == self.spec_max(),
    ;
}

/// The integer-mode engine: the fractional weight is the ratio
/// `alpha_numerator / alpha_denominator`, and every update multiplies
/// before dividing (truncating), so the filter works on platforms with
/// no floating-point support.
pub struct IntSeriesEwmaFilter {
    /// Number of samples that have been pushed through the filter.
    pub sample_count: usize,
    /// Recent minimum value (not the all-time minimum).
    pub local_min: i64,
    /// Recent maximum value (not the all-time maximum).
    pub local_max: i64,
    /// Exponentially weighted moving average.
    pub average: i64,
    /// Weighting ratio numerator: a bigger ratio fades old values faster.
    pub alpha_numerator: i64,
    /// Weighting ratio denominator; the ratio must lie strictly
    /// between zero and one for sane fading.
    pub alpha_denominator: i64,
}

impl IntSeriesEwmaFilter {
    /// The filter has seen at least one sample.
    pub open spec fn seeded(self) -> bool {
        self.sample_count > 0
    }

    /// The weighting ratio lies strictly between zero and one.
    pub open spec fn weights_ok(self) -> bool {
        0 < self.alpha_numerator < self.alpha_denominator
    }

    /// Once seeded, the average lies within the fading envelope.
    pub open spec fn bounds_ok(self) -> bool {
        self.seeded() ==> self.local_min <= self.average <= self.local_max
    }

    /// Well-formed filter state: sane weights, and the envelope
    /// brackets the average.
    pub open spec fn wf(self) -> bool {
        self.weights_ok() && self.bounds_ok()
    }

    /// The state a freshly constructed filter starts in.
    pub open spec fn initial(alpha_numerator: i64, alpha_denominator: i64) -> Self {
        IntSeriesEwmaFilter {
            sample_count: 0,
            local_min: 0,
            local_max: 0,
            average: 0,
            alpha_numerator,
            alpha_denominator,
        }
    }

    /// The average after a steady-state push of `v`.
    pub open spec fn next_average(self, v: i64) -> int {
        blend(
            self.average as int,
            v as int,
            self.alpha_numerator as int,
            self.alpha_denominator as int,
        )
    }

    /// A steady-state push of `v` fades the maximum: `v` does not
    /// extend the envelope upward, but sits above the updated average.
    pub open spec fn fades_max(self, v: i64) -> bool {
        v <= self.local_max && v > self.next_average(v)
    }

    /// A steady-state push of `v` fades the minimum: `v` does not
    /// extend the envelope downward, but sits below the updated average.
    pub open spec fn fades_min(self, v: i64) -> bool {
        v >= self.local_min && v < self.next_average(v)
    }

    /// The maximum after a steady-state push of `v`: snap to a genuinely
    /// new high, fade toward a high-side sample, otherwise unchanged.
    /// The fade condition compares against the updated average.
    pub open spec fn next_max(self, v: i64) -> int {
        if v > self.local_max {
            v as int
        } else if v > self.next_average(v) {
            blend(
                self.local_max as int,
                v as int,
                self.alpha_numerator as int,
                self.alpha_denominator as int,
            )
        } else {
            self.local_max as int
        }
    }

    /// The minimum after a steady-state push of `v`: the structural
    /// mirror of `next_max`.
    pub open spec fn next_min(self, v: i64) -> int {
        if v < self.local_min {
            v as int
        } else if v < self.next_average(v) {
            blend(
                self.local_min as int,
                v as int,
                self.alpha_numerator as int,
                self.alpha_denominator as int,
            )
        } else {
            self.local_min as int
        }
    }

    /// A push of `v` is allowed when the state is well formed, the
    /// sample counter can still advance, and each weighted step the
    /// update would take stays within `i64`.
    pub open spec fn can_push(self, v: i64) -> bool {
        &&& self.wf()
        &&& self.sample_count < usize::MAX
        &&& (self.seeded() ==> {
            &&& fits_i64(v - self.average)
            &&& fits_i64(self.alpha_numerator * (v - self.average))
            &&& (self.fades_max(v) ==> fits_i64(v - self.local_max) && fits_i64(
                self.alpha_numerator * (v - self.local_max),
            ))
            &&& (self.fades_min(v) ==> fits_i64(v - self.local_min) && fits_i64(
                self.alpha_numerator * (v - self.local_min),
            ))
        })
    }

    /// Make a filter with an explicit weighting ratio. The ratio is not
    /// validated here; pushing samples demands a sane ratio instead.
    pub fn new(alpha_numerator: i64, alpha_denominator: i64) -> (r: Self)
        ensures
            r == Self::initial(alpha_numerator, alpha_denominator),
    {
        Self {
            sample_count: 0,
            alpha_numerator,
            alpha_denominator,
            local_min: 0,
            local_max: 0,
            average: 0,
        }
    }

    /// Make a filter with the documented default weighting of one
    /// hundredth, the ratio counterpart of a fractional weight of 0.01.
    pub fn default() -> (r: Self)
        ensures
            r == Self::initial(1, 100),
            r.wf(),
    {
        Self::new(1, 100)
    }
}

impl EwmaFilter<i64> for IntSeriesEwmaFilter {
    open spec fn spec_average(&self) -> i64 {
        self.average
    }

    open spec fn spec_min(&self) -> i64 {
        self.local_min
    }

    open spec fn spec_max(&self) -> i64 {
        self.local_max
    }

    open spec fn push_allowed(&self, new_value: i64) -> bool {
        self.can_push(new_value)
    }

    /// The first push seeds the whole state with the sample; every
    /// later push blends the average toward the sample and then lets
    /// each envelope side snap to a new extreme, fade toward a sample
    /// on its side of the updated average, or stay put.
    fn push_sample(&mut self, new_value: i64) -> (r: i64)
        ensures
            final(self).alpha_numerator == old(self).alpha_numerator,
            final(self).alpha_denominator == old(self).alpha_denominator,
            final(self).sample_count == old(self).sample_count + 1,
            old(self).sample_count == 0 ==> final(self).average == new_value
                && final(self).local_min == new_value && final(self).local_max == new_value,
            old(self).sample_count > 0 ==> final(self).average == old(self).next_average(
                new_value,
            ),
            old(self).sample_count > 0 ==> final(self).local_max == old(self).next_max(new_value),
            old(self).sample_count > 0 ==> final(self).local_min == old(self).next_min(new_value),
            r == final(self).average,
            final(self).wf(),
    {
        if self.sample_count == 0 {
            // seed the EWMA with the initial value
            self.local_min = new_value;
            self.local_max = new_value;
            self.average = new_value;
        } else {
            let num = self.alpha_numerator;
            let den = self.alpha_denominator;
            self.average = blend_toward(self.average, new_value, num, den);

            // extrema fade toward the average
            if new_value > self.local_max {
                self.local_max = new_value;
            } else if new_value > self.average {
                self.local_max = blend_toward(self.local_max, new_value, num, den);
            }

            if new_value < self.local_min {
                self.local_min = new_value;
            } else if new_value < self.average {
                self.local_min = blend_toward(self.local_min, new_value, num, den);
            }
        }
        self.sample_count += 1;

        self.average
    }

    fn ewma_average(&self) -> (r: i64) {
        self.average
    }

    fn local_range(&self) -> (r: Range<i64>) {
        self.local_min..self.local_max
    }
}

} // verus!
