use std::ops::Range;
use vstd::prelude::*;

verus! {

/// The last offset of the block of `align` bytes that holds `value`, computed as
/// `value | (align - 1)`.
pub fn aligned(value: u64, align: u64) -> (r: u64)
    requires
        value >= 1,
        align >= 1,
    ensures
        r == value | ((align - 1) as u64),
        r >= value,
{
    let r = 1u64 + (value - 1u64) | (align - 1u64);
    assert(value | ((align - 1) as u64) >= value) by (bit_vector);
    r
}

/// `x` moved into `[lo, hi]` from below first, then capped by `hi`.
pub open spec fn clamp_value(x: u64, lo: u64, hi: u64) -> u64 {
    if x < lo {
        if lo < hi { lo } else { hi }
    } else if x < hi {
        x
    } else {
        hi
    }
}

/// Intersects the interval `values` with `range`: both bounds are clamped into
/// `range`, so that the result lies inside `range` whenever `range` is not reversed.
pub fn clamp_range(values: Range<u64>, range: Range<u64>) -> (r: Range<u64>)
    ensures
        r.start == clamp_value(values.start, range.start, range.end),
        r.end == clamp_value(values.end, range.start, range.end),
        range.start <= range.end ==> range.start <= r.start <= range.end,
        range.start <= range.end ==> range.start <= r.end <= range.end,
        range.start <= range.end && values.start <= values.end ==> r.start <= r.end,
{
    let start = if values.start > range.start { values.start } else { range.start };
    let start = if start < range.end { start } else { range.end };
    let end = if values.end > range.start { values.end } else { range.start };
    let end = if end < range.end { end } else { range.end };
    start..end
}

/// Width checks between an unsigned integer type and the native pointer-sized types.
pub trait IntegerFitting: Sized {
    /// The mathematical value of `self`.
    spec fn int_value(&self) -> int;

    /// The largest value of the type.
    spec fn max_int() -> int;

    /// Whether `self` can be converted to `usize` without loss.
    fn fits_usize(self) -> (r: bool)
        ensures
            r == (self.int_value() <= usize::MAX),
    ;

    /// Whether `self` can be converted to `isize` without loss.
    fn fits_isize(self) -> (r: bool)
        ensures
            r == (self.int_value() <= isize::MAX),
    ;

    /// Whether `value` can be converted to this type without loss.
    fn usize_fits(value: usize) -> (r: bool)
        ensures
            r == (value <= Self::max_int()),
    ;

    /// Whether `value` can be converted to this type without loss.
    fn isize_fits(value: isize) -> (r: bool)
        ensures
            r == (0 <= value && value <= Self::max_int()),
    ;
}

impl IntegerFitting for u64 {
    open spec fn int_value(&self) -> int {
        *self as int
    }

    open spec fn max_int() -> int {
        u64::MAX as int
    }

    fn fits_usize(self) -> (r: bool) {
        (self as u128) <= (usize::MAX as u128)
    }

    fn fits_isize(self) -> (r: bool) {
        (self as u128) <= (isize::MAX as u128)
    }

    fn usize_fits(value: usize) -> (r: bool) {
        (value as u128) <= (u64::MAX as u128)
    }

    fn isize_fits(value: isize) -> (r: bool) {
        value >= 0 && (value as i128) <= (u64::MAX as i128)
    }
}

impl IntegerFitting for u32 {
    open spec fn int_value(&self) -> int {
        *self as int
    }

    open spec fn max_int() -> int {
        u32::MAX as int
    }

    fn fits_usize(self) -> (r: bool) {
        (self as u128) <= (usize::MAX as u128)
    }

    fn fits_isize(self) -> (r: bool) {
        (self as u128) <= (isize::MAX as u128)
    }

    fn usize_fits(value: usize) -> (r: bool) {
        (value as u128) <= (u32::MAX as u128)
    }

    fn isize_fits(value: isize) -> (r: bool) {
        value >= 0 && (value as i128) <= (u32::MAX as i128)
    }
}

/// Whether `value` can be converted to `usize` without loss.
pub fn fits_usize<T: IntegerFitting>(value: T) -> (r: bool)
    ensures
        r == (value.int_value() <= usize::MAX),
{
    value.fits_usize()
}

/// Whether `value` can be converted to `isize` without loss.
pub fn fits_isize<T: IntegerFitting>(value: T) -> (r: bool)
    ensures
        r == (value.int_value() <= isize::MAX),
{
    value.fits_isize()
}

/// Whether `value` can be converted to `u64` without loss.
pub fn fits_u64(value: usize) -> (r: bool)
    ensures
        r == (value <= u64::MAX),
{
    u64::usize_fits(value)
}

/// Whether `value` can be converted to `u32` without loss.
pub fn fits_u32(value: usize) -> (r: bool)
    ensures
        r == (value <= u32::MAX),
{
    u32::usize_fits(value)
}

} // verus!
