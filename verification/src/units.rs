//! Sizes in canonical units.
//!
//! The size of a GPU's memory is kept as a whole number of hundredths of a
//! megabyte, so that a value rounded to two decimal places is exact: 256 MB
//! is 25600.

use vstd::prelude::*;

verus! {

/// Bytes in one megabyte.
pub const BYTES_PER_MB: u64 = 1_048_576;

/// Hundredths in one megabyte.
pub const HUNDREDTHS_PER_MB: u64 = 100;

/// `bytes` in hundredths of a megabyte, rounded to the nearest hundredth, a
/// tie going away from zero.
pub open spec fn mb_hundredths(bytes: nat) -> nat {
    (bytes * 100 + 524_288) / 1_048_576
}

/// Converts a byte count to hundredths of a megabyte.
pub fn bytes_to_mb(bytes: u64) -> (hundredths: u64)
    ensures
        hundredths == mb_hundredths(bytes as nat),
{
    let whole: u64 = bytes / BYTES_PER_MB;
    let rest: u64 = bytes % BYTES_PER_MB;
    let frac: u64 = (rest * HUNDREDTHS_PER_MB + BYTES_PER_MB / 2) / BYTES_PER_MB;
    whole * HUNDREDTHS_PER_MB + frac
}

/// The rounded value is the hundredth nearest to the exact one: the exact
/// value is less than half a hundredth above it and at most half a hundredth
/// below it, so a value half-way between two hundredths goes to the upper one.
pub proof fn lemma_mb_hundredths_nearest(bytes: nat)
    ensures
        -1_048_576 <= 2 * (bytes * 100 - mb_hundredths(bytes) * 1_048_576) < 1_048_576,
{
}

/// A larger byte count never converts to a smaller size.
pub proof fn lemma_mb_hundredths_monotone(a: nat, b: nat)
    requires
        a <= b,
    ensures
        mb_hundredths(a) <= mb_hundredths(b),
{
}

/// A whole number of megabytes converts to a hundred times that number.
pub proof fn lemma_mb_hundredths_whole(mb: nat)
    ensures
        mb_hundredths(mb * 1_048_576) == mb * 100,
{
}

/// The amount that is left of `total` when `used` is taken from it: nothing
/// where `used` is the larger.
pub open spec fn left_of(total: u64, used: u64) -> u64 {
    if used <= total {
        (total - used) as u64
    } else {
        0
    }
}

/// A whole number of megabytes in hundredths, where that fits in `u64`.
pub open spec fn whole_mb_hundredths(mb: nat) -> Option<u64> {
    if mb * 100 <= u64::MAX {
        Some((mb * 100) as u64)
    } else {
        None
    }
}

/// Converts a whole number of megabytes to hundredths of a megabyte; `None`
/// where the result does not fit.
pub fn whole_mb(mb: u64) -> (hundredths: Option<u64>)
    ensures
        hundredths == whole_mb_hundredths(mb as nat),
{
    mb.checked_mul(HUNDREDTHS_PER_MB)
}

} // verus!
