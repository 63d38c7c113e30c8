//! Sampling from an inclusive range `[low, high]`.
//!
//! The range is turned into offsets `[lo, hi]` (see `SampleInt`). A source
//! draws from a half-open window of `u64` outcomes, and each outcome stands for
//! one offset. Where `hi` is below `u64::MAX` the window is `[lo, hi + 1)`;
//! otherwise it sits one lower, `[lo - 1, hi)`, with each outcome standing for
//! its successor; and where the range covers all of `u64` the window is all of
//! `u64`.

use vstd::prelude::*;
use crate::sample_int::SampleInt;
use crate::source::{RandomSource, thread_source};

verus! {

/// A range whose low end lies above its high end, with both ends.
#[derive(Clone, Copy, Debug, PartialEq, Eq)]
pub struct InvalidRange<T> {
    pub low: T,
    pub high: T,
}

/// The distance of `x` from the smallest value of its type.
pub open spec fn offset_of<T: SampleInt>(x: T) -> int {
    x.value() - T::lowest()
}

/// How far the window of outcomes for offsets `[lo, hi]` sits below them.
pub open spec fn window_shift(lo: int, hi: int) -> int {
    if hi == u64::MAX && lo > 0 {
        1
    } else {
        0
    }
}

/// The first outcome of the window for offsets `[lo, hi]`.
pub open spec fn window_start(lo: int, hi: int) -> int {
    lo - window_shift(lo, hi)
}

/// One past the last outcome of the window for offsets `[lo, hi]`.
pub open spec fn window_end(lo: int, hi: int) -> int {
    hi + 1 - window_shift(lo, hi)
}

/// Whether `d` is an outcome of the window for the range `[low, high]`.
pub open spec fn in_window<T: SampleInt>(low: T, high: T, d: int) -> bool {
    window_start(offset_of(low), offset_of(high)) <= d < window_end(offset_of(low), offset_of(high))
}

/// The value that outcome `d` of the window for `[low, high]` stands for.
pub open spec fn outcome_value<T: SampleInt>(low: T, high: T, d: int) -> int {
    T::lowest() + d + window_shift(offset_of(low), offset_of(high))
}

/// The outcome of the window for `[low, high]` that stands for the value `v`.
pub open spec fn outcome_for<T: SampleInt>(low: T, high: T, v: int) -> int {
    v - T::lowest() - window_shift(offset_of(low), offset_of(high))
}

/// The value of `[low, high]` that the outcome `d` stands for.
pub fn value_of_outcome<T: SampleInt>(low: T, high: T, d: u64) -> (r: T)
    requires
        low.value() <= high.value(),
        in_window(low, high, d as int),
    ensures
        r.value() == outcome_value(low, high, d as int),
        low.value() <= r.value() <= high.value(),
{
    proof {
        T::lemma_bounds(low);
        T::lemma_bounds(high);
    }
    let lo = low.offset();
    let hi = high.offset();
    let o: u64 = if hi == u64::MAX && lo > 0 {
        d + 1
    } else {
        d
    };
    T::from_offset(o)
}

/// Draws one value uniformly from `[low, high]`, both ends included, with
/// `rng`.
///
/// A range with `low > high` is refused before anything is drawn, and `rng`
/// is left as it was.
pub fn random_range_with<R: RandomSource, T: SampleInt>(rng: &mut R, low: T, high: T) -> (r: Result<
    T,
    InvalidRange<T>,
>)
    ensures
        r is Err <==> low.value() > high.value(),
        r is Err ==> r == Err::<T, InvalidRange<T>>((InvalidRange { low, high })) && *final(rng)
            == *old(rng),
        r is Ok ==> low.value() <= r->Ok_0.value() <= high.value(),
        r is Ok ==> exists|d: int|
            in_window(low, high, d) && #[trigger] outcome_value(low, high, d) == r->Ok_0.value(),
        low.value() == high.value() ==> r == Ok::<T, InvalidRange<T>>(low),
{
    let lo = low.offset();
    let hi = high.offset();
    if lo > hi {
        return Err(InvalidRange { low, high });
    }
    proof {
        T::lemma_bounds(low);
        T::lemma_bounds(high);
    }
    let d: u64 = if hi < u64::MAX {
        rng.draw_below(lo, hi + 1)
    } else if lo > 0 {
        rng.draw_below(lo - 1, hi)
    } else {
        rng.draw_any()
    };
    let v = value_of_outcome(low, high, d);
    proof {
        T::lemma_injective(v, low);
    }
    Ok(v)
}

/// Draws one value uniformly from `[low, high]`, both ends included, with
/// this thread's generator.
///
/// A range with `low > high` is refused before the generator is touched.
pub fn random_range<T: SampleInt>(low: T, high: T) -> (r: Result<T, InvalidRange<T>>)
    ensures
        r is Err <==> low.value() > high.value(),
        r is Err ==> r == Err::<T, InvalidRange<T>>((InvalidRange { low, high })),
        r is Ok ==> low.value() <= r->Ok_0.value() <= high.value(),
        r is Ok ==> exists|d: int|
            in_window(low, high, d) && #[trigger] outcome_value(low, high, d) == r->Ok_0.value(),
        low.value() == high.value() ==> r == Ok::<T, InvalidRange<T>>(low),
{
    if low.offset() > high.offset() {
        return Err(InvalidRange { low, high });
    }
    let mut rng = thread_source();
    random_range_with(&mut rng, low, high)
}

/// The window for a valid range `[low, high]` has exactly as many outcomes
/// as the range has values, every outcome stands for a value of the range,
/// and every value of the range for exactly one outcome. A source uniform
/// over the window therefore gives values uniform over the range.
pub proof fn lemma_window_matches_range<T: SampleInt>(low: T, high: T)
    requires
        low.value() <= high.value(),
    ensures
        window_end(offset_of(low), offset_of(high)) - window_start(offset_of(low), offset_of(high))
            == high.value() - low.value() + 1,
        forall|d: int|
            in_window(low, high, d) ==> low.value() <= #[trigger] outcome_value(low, high, d)
                <= high.value(),
        forall|v: int|
            low.value() <= v <= high.value() ==> in_window(low, high, #[trigger] outcome_for(low, high, v))
                && outcome_value(low, high, outcome_for(low, high, v)) == v,
        forall|d1: int, d2: int|
            #[trigger] outcome_value(low, high, d1) == #[trigger] outcome_value(low, high, d2)
                ==> d1 == d2,
{
}

} // verus!
