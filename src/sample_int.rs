//! Integer types that can be sampled, each seen through its distance from the
//! type's smallest value (its offset), which always fits in a `u64`.

use vstd::prelude::*;

verus! {

/// An integer type whose values are sampled by way of their offsets.
pub trait SampleInt: Copy + Sized {
    /// The value as a mathematical integer.
    spec fn value(self) -> int;

    /// The smallest value of the type.
    spec fn lowest() -> int;

    /// The largest value of the type.
    spec fn highest() -> int;

    /// Every value lies between the type's extremes, which are at most
    /// `u64::MAX` apart.
    proof fn lemma_bounds(x: Self)
        ensures
            Self::lowest() <= x.value() <= Self::highest(),
            Self::highest() - Self::lowest() <= u64::MAX,
    ;

    /// Two values with the same integer are the same value.
    proof fn lemma_injective(x: Self, y: Self)
        ensures
            x.value() == y.value() ==> x == y,
    ;

    /// The distance of `self` from the smallest value.
    fn offset(self) -> (r: u64)
        ensures
            r == self.value() - Self::lowest(),
    ;

    /// The value at distance `o` from the smallest value.
    fn from_offset(o: u64) -> (r: Self)
        requires
            o <= Self::highest() - Self::lowest(),
        ensures
            r.value() == Self::lowest() + o,
    ;
}

impl SampleInt for u8 {
    open spec fn value(self) -> int {
        self as int
    }

    open spec fn lowest() -> int {
        u8::MIN as int
    }

    open spec fn highest() -> int {
        u8::MAX as int
    }

    proof fn lemma_bounds(x: Self) {
    }

    proof fn lemma_injective(x: Self, y: Self) {
    }

    fn offset(self) -> (r: u64) {
        self as u64
    }

    fn from_offset(o: u64) -> (r: Self) {
        o as u8
    }
}

impl SampleInt for u16 {
    open spec fn value(self) -> int {
        self as int
    }

    open spec fn lowest() -> int {
        u16::MIN as int
    }

    open spec fn highest() -> int {
        u16::MAX as int
    }

    proof fn lemma_bounds(x: Self) {
    }

    proof fn lemma_injective(x: Self, y: Self) {
    }

    fn offset(self) -> (r: u64) {
        self as u64
    }

    fn from_offset(o: u64) -> (r: Self) {
        o as u16
    }
}

impl SampleInt for u32 {
    open spec fn value(self) -> int {
        self as int
    }

    open spec fn lowest() -> int {
        u32::MIN as int
    }

    open spec fn highest() -> int {
        u32::MAX as int
    }

    proof fn lemma_bounds(x: Self) {
    }

    proof fn lemma_injective(x: Self, y: Self) {
    }

    fn offset(self) -> (r: u64) {
        self as u64
    }

    fn from_offset(o: u64) -> (r: Self) {
        o as u32
    }
}

impl SampleInt for u64 {
    open spec fn value(self) -> int {
        self as int
    }

    open spec fn lowest() -> int {
        u64::MIN as int
    }

    open spec fn highest() -> int {
        u64::MAX as int
    }

    proof fn lemma_bounds(x: Self) {
    }

    proof fn lemma_injective(x: Self, y: Self) {
    }

    fn offset(self) -> (r: u64) {
        self as u64
    }

    fn from_offset(o: u64) -> (r: Self) {
        o as u64
    }
}

impl SampleInt for usize {
    open spec fn value(self) -> int {
        self as int
    }

    open spec fn lowest() -> int {
        usize::MIN as int
    }

    open spec fn highest() -> int {
        usize::MAX as int
    }

    proof fn lemma_bounds(x: Self) {
    }

    proof fn lemma_injective(x: Self, y: Self) {
    }

    fn offset(self) -> (r: u64) {
        self as u64
    }

    fn from_offset(o: u64) -> (r: Self) {
        o as usize
    }
}

impl SampleInt for i8 {
    open spec fn value(self) -> int {
        self as int
    }

    open spec fn lowest() -> int {
        i8::MIN as int
    }

    open spec fn highest() -> int {
        i8::MAX as int
    }

    proof fn lemma_bounds(x: Self) {
    }

    proof fn lemma_injective(x: Self, y: Self) {
    }

    fn offset(self) -> (r: u64) {
        (self as i64 - i8::MIN as i64) as u64
    }

    fn from_offset(o: u64) -> (r: Self) {
        (o as i64 + i8::MIN as i64) as i8
    }
}

impl SampleInt for i16 {
    open spec fn value(self) -> int {
        self as int
    }

    open spec fn lowest() -> int {
        i16::MIN as int
    }

    open spec fn highest() -> int {
        i16::MAX as int
    }

    proof fn lemma_bounds(x: Self) {
    }

    proof fn lemma_injective(x: Self, y: Self) {
    }

    fn offset(self) -> (r: u64) {
        (self as i64 - i16::MIN as i64) as u64
    }

    fn from_offset(o: u64) -> (r: Self) {
        (o as i64 + i16::MIN as i64) as i16
    }
}

impl SampleInt for i32 {
    open spec fn value(self) -> int {
        self as int
    }

    open spec fn lowest() -> int {
        i32::MIN as int
    }

    open spec fn highest() -> int {
        i32::MAX as int
    }

    proof fn lemma_bounds(x: Self) {
    }

    proof fn lemma_injective(x: Self, y: Self) {
    }

    fn offset(self) -> (r: u64) {
        (self as i64 - i32::MIN as i64) as u64
    }

    fn from_offset(o: u64) -> (r: Self) {
        (o as i64 + i32::MIN as i64) as i32
    }
}

impl SampleInt for i64 {
    open spec fn value(self) -> int {
        self as int
    }

    open spec fn lowest() -> int {
        i64::MIN as int
    }

    open spec fn highest() -> int {
        i64::MAX as int
    }

    proof fn lemma_bounds(x: Self) {
    }

    proof fn lemma_injective(x: Self, y: Self) {
    }

    fn offset(self) -> (r: u64) {
        if self >= 0 {
            self as u64 + 0x8000_0000_0000_0000u64
        } else {
            ((self + 1) + i64::MAX) as u64
        }
    }

    fn from_offset(o: u64) -> (r: Self) {
        if o >= 0x8000_0000_0000_0000u64 {
            (o - 0x8000_0000_0000_0000u64) as i64
        } else {
            (o as i64 - i64::MAX) - 1
        }
    }
}

impl SampleInt for isize {
    open spec fn value(self) -> int {
        self as int
    }

    open spec fn lowest() -> int {
        isize::MIN as int
    }

    open spec fn highest() -> int {
        isize::MAX as int
    }

    proof fn lemma_bounds(x: Self) {
    }

    proof fn lemma_injective(x: Self, y: Self) {
    }

    fn offset(self) -> (r: u64) {
        if self >= 0 {
            self as u64 + (isize::MAX as u64 + 1)
        } else {
            ((self + 1) + isize::MAX) as u64
        }
    }

    fn from_offset(o: u64) -> (r: Self) {
        if o > isize::MAX as u64 {
            (o - (isize::MAX as u64 + 1)) as isize
        } else {
            (o as isize - isize::MAX) - 1
        }
    }
}

} // verus!
