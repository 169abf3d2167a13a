//! Lengths scaled from the reference density of 300 dots per inch to the device's.
use vstd::prelude::*;

verus! {

/// The density at which the reference lengths below are given.
pub const BASE_DPI: u32 = 300;

/// Height of a small bar, at the reference density.
pub const SMALL_BAR_HEIGHT: u32 = 121;

/// Height of a big bar, at the reference density.
pub const BIG_BAR_HEIGHT: u32 = 163;

/// A medium line thickness, at the reference density.
pub const THICKNESS_MEDIUM: u32 = 2;

/// `x * dpi / BASE_DPI`, rounded to the nearest integer (halves upward), and at least 1.
pub open spec fn spec_scale_by_dpi(x: int, dpi: int) -> int {
    let r = (2 * x * dpi + BASE_DPI) / (2 * BASE_DPI);
    if r < 1 {
        1
    } else {
        r
    }
}

/// Scales the length `x`, given at the reference density, to the density `dpi`.
pub fn scale_by_dpi(x: u32, dpi: u16) -> (r: u32)
    requires
        x <= 1000,
    ensures
        r == spec_scale_by_dpi(x as int, dpi as int),
        1 <= r <= 220_000,
{
    assert(2 * x * dpi <= 2 * 1000 * 65535) by (nonlinear_arith)
        requires
            x <= 1000,
            dpi <= 65535,
    ;
    let r = (2 * x * (dpi as u32) + BASE_DPI) / (2 * BASE_DPI);
    assert((2 * x * dpi + 300) / 600 <= 220_000) by (nonlinear_arith)
        requires
            2 * x * dpi <= 2 * 1000 * 65535,
    ;
    if r < 1 {
        1
    } else {
        r
    }
}

} // verus!
