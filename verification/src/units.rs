//! Unit conversions for the status display.
//!
//! The panel reports byte counts and a CPU percentage as JSON numbers.
//! Inside this crate such numbers are held in thousandths (a value `x`
//! is stored as `x * 1000`), so that fractional readings stay exact
//! integers. The display shows one decimal digit, so each reading is
//! reduced to tenths, rounding half up. Byte counts turn into GiB by
//! dividing by 1_000_000_000 (a decimal divisor, kept as the panel's
//! convention).

use vstd::prelude::*;

verus! {

/// Tenths of a unit from thousandths of a unit, rounded half up.
pub open spec fn spec_tenths_of_milli(milli: int) -> int {
    milli / 100 + (if milli % 100 >= 50 {
        1int
    } else {
        0int
    })
}

/// Tenths of a GiB from thousandths of a byte, rounded half up,
/// with a GiB taken as 1_000_000_000 bytes.
pub open spec fn spec_gib_tenths_of_milli_bytes(milli: int) -> int {
    milli / 100_000_000_000 + (if milli % 100_000_000_000 >= 50_000_000_000 {
        1int
    } else {
        0int
    })
}

/// Reduces a reading in thousandths to tenths, rounding half up.
pub fn tenths_of_milli(milli: u64) -> (t: u64)
    ensures
        t == spec_tenths_of_milli(milli as int),
{
    let q: u64 = milli / 100;
    let r: u64 = milli % 100;
    if r >= 50 {
        q + 1
    } else {
        q
    }
}

/// Converts a byte count in thousandths of a byte to tenths of a GiB,
/// rounding half up.
pub fn gib_tenths_of_milli_bytes(milli: u64) -> (t: u64)
    ensures
        t == spec_gib_tenths_of_milli_bytes(milli as int),
{
    let q: u64 = milli / 100_000_000_000;
    let r: u64 = milli % 100_000_000_000;
    if r >= 50_000_000_000 {
        q + 1
    } else {
        q
    }
}

/// The byte-to-GiB conversion divides by 1_000_000_000 and is exact for
/// multiples of 1_000_000_000: a count of `g` whole GiB renders as
/// exactly `g` GiB, with no rounding and a zero tenths digit.
pub proof fn lemma_gib_conversion_exact_for_multiples(bytes: int)
    requires
        0 <= bytes,
        bytes % 1_000_000_000 == 0,
    ensures
        spec_gib_tenths_of_milli_bytes(1000 * bytes) == 10 * (bytes / 1_000_000_000),
        spec_gib_tenths_of_milli_bytes(1000 * bytes) % 10 == 0,
{
    let g = bytes / 1_000_000_000;
    assert(bytes == 1_000_000_000 * g);
    assert(1000 * bytes == (10 * g) * 100_000_000_000) by (nonlinear_arith)
        requires
            bytes == 1_000_000_000 * g,
    ;
    assert((10 * g) * 100_000_000_000 / 100_000_000_000 == 10 * g) by (nonlinear_arith)
        requires
            g >= 0,
    ;
    assert((10 * g) * 100_000_000_000 % 100_000_000_000 == 0) by (nonlinear_arith)
        requires
            g >= 0,
    ;
    assert(10 * g % 10 == 0) by (nonlinear_arith);
}

} // verus!
