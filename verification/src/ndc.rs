//! Coordinate mapper: integer pixel coordinates to normalized device
//! coordinates (NDC), kept as exact rationals.
//!
//! The mapping sends pixel `p` to `2*p / size - 1`, x with the screen width
//! and to y with the screen height. An `Ndc` value stores the result as the
//! fraction `num / den` with `num == 2*p - size` and `den == size`, so `0`
//! maps exactly to `-1` and `size` maps exactly to `1`. The caller divides
//! once, at the device boundary, to obtain the floating-point coordinate.

use vstd::prelude::*;

verus! {

/// A normalized device coordinate as the exact rational `num / den`.
#[derive(Clone, Copy, Debug, PartialEq, Eq, Structural)]
pub struct Ndc {
    /// Numerator; for a mapped pixel `p` on an axis of `size` pixels this is
    /// `2*p - size`.
    pub num: i64,
    /// Denominator: the axis size in pixels, always positive.
    pub den: i64,
}

/// A well-formed coordinate has a positive denominator.
pub open spec fn ndc_wf(n: Ndc) -> bool {
    0 < n.den
}

/// The coordinate that `to_ndc` produces for pixel `p` on an axis of `size`
/// pixels.
pub open spec fn ndc_of(p: int, size: int) -> Ndc {
    Ndc { num: (2 * p - size) as i64, den: size as i64 }
}

/// `n` is exactly `-1`, the NDC value of pixel `0`.
pub open spec fn ndc_is_neg_one(n: Ndc) -> bool {
    n.num == -n.den
}

/// `n` is exactly `1`, the NDC value of the last pixel of the axis.
pub open spec fn ndc_is_one(n: Ndc) -> bool {
    n.num == n.den
}

/// `a < b` as rationals; both denominators must be positive for this
/// cross-multiplied form to order the values.
pub open spec fn ndc_lt(a: Ndc, b: Ndc) -> bool {
    a.num * b.den < b.num * a.den
}

/// Maps pixel `p` on an axis of `size` pixels to `2*p/size - 1` in NDC.
pub fn to_ndc(p: i32, size: u32) -> (r: Ndc)
    requires
        0 < size,
    ensures
        r == ndc_of(p as int, size as int),
        ndc_wf(r),
{
    Ndc { num: 2 * (p as i64) - (size as i64), den: size as i64 }
}

/// The axis endpoints map to the ends of the NDC range: pixel `0` to `-1`
/// and pixel `size` to `1`.
pub proof fn lemma_to_ndc_endpoints(size: u32)
    requires
        0 < size,
    ensures
        ndc_is_neg_one(ndc_of(0, size as int)),
        ndc_is_one(ndc_of(size as int, size as int)),
{
}

/// The mapping is strictly monotonic in the pixel coordinate: a larger pixel
/// maps to a strictly larger NDC value on the same axis.
pub proof fn lemma_to_ndc_monotonic(p1: i32, p2: i32, size: u32)
    requires
        0 < size,
        p1 < p2,
    ensures
        ndc_lt(ndc_of(p1 as int, size as int), ndc_of(p2 as int, size as int)),
{
    let a = ndc_of(p1 as int, size as int);
    let b = ndc_of(p2 as int, size as int);
    assert(a.num < b.num);
    assert(a.den == b.den && 0 < a.den);
    assert(a.num * a.den < b.num * a.den) by (nonlinear_arith)
        requires
            a.num < b.num,
            0 < a.den,
    ;
}

} // verus!
