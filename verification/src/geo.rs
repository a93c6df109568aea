//! Geographic values as exact rationals.
//!
//! The metadata format stores an angle as three unsigned rationals —
//! degrees, minutes, seconds. Decoding sums them as `d + m/60 + s/3600`.
//! The library keeps that sum exact: a decoded angle is a signed rational
//! over a common denominator, and only a consumer that must display it
//! approximates it in floating point.

use vstd::prelude::*;

verus! {

/// An unsigned rational exactly as the metadata format stores it.
#[derive(Clone, Copy, PartialEq, Eq, Structural, Debug)]
pub struct ExifRational {
    pub num: u32,
    pub den: u32,
}

/// A signed rational: the value is `num / den`, negated when `negative`
/// holds. Not reduced to lowest terms.
#[derive(Clone, Copy, PartialEq, Eq, Structural, Debug)]
pub struct SignedRational {
    pub negative: bool,
    pub num: u128,
    pub den: u128,
}

impl SignedRational {
    pub open spec fn wf(self) -> bool {
        self.den > 0
    }
}

/// A decoded position in decimal degrees, the hemisphere sign already
/// folded into each angle. Out-of-range magnitudes are not clamped: a
/// malformed container may legally decode to one, and callers need not
/// validate range.
#[derive(Clone, Copy, PartialEq, Eq, Structural, Debug)]
pub struct GeoCoordinate {
    pub latitude: SignedRational,
    pub longitude: SignedRational,
}

impl GeoCoordinate {
    pub open spec fn wf(self) -> bool {
        self.latitude.wf() && self.longitude.wf()
    }
}

/// Numerator of `dn/dd + (mn/md)/60 + (sn/sd)/3600` over the common
/// denominator `3600 * dd * md * sd`.
pub open spec fn spec_sexagesimal_num(dn: int, dd: int, mn: int, md: int, sn: int, sd: int) -> int {
    3600 * dn * md * sd + 60 * mn * dd * sd + sn * dd * md
}

/// The common denominator `3600 * dd * md * sd`.
pub open spec fn spec_sexagesimal_den(dd: int, md: int, sd: int) -> int {
    3600 * dd * md * sd
}

/// Numerator of `d + m/60 + s/3600` over the common denominator
/// `3600 * d.den * m.den * s.den`.
pub open spec fn spec_triple_num(d: ExifRational, m: ExifRational, s: ExifRational) -> int {
    spec_sexagesimal_num(
        d.num as int,
        d.den as int,
        m.num as int,
        m.den as int,
        s.num as int,
        s.den as int,
    )
}

/// Denominator of `d + m/60 + s/3600` over the common denominator.
pub open spec fn spec_triple_den(d: ExifRational, m: ExifRational, s: ExifRational) -> int {
    spec_sexagesimal_den(d.den as int, m.den as int, s.den as int)
}

/// A product of up to four factors in these ranges stays well under the
/// 128-bit bound, and is positive when every factor is.
proof fn lemma_scaled_product_bounds(k: int, a: int, b: int, c: int)
    requires
        0 <= k <= 3600,
        0 <= a <= 0xffff_ffff,
        0 <= b <= 0xffff_ffff,
        0 <= c <= 0xffff_ffff,
    ensures
        0 <= k * a <= 3600 * 0xffff_ffff,
        0 <= k * a * b <= 3600 * 0xffff_ffff * 0xffff_ffff,
        0 <= k * a * b * c <= 3600 * 0xffff_ffff * 0xffff_ffff * 0xffff_ffff,
        (k >= 1 && a >= 1 && b >= 1 && c >= 1) ==> k * a * b * c >= 1,
{
    assert(0 <= k * a <= 3600 * 0xffff_ffff) by (nonlinear_arith)
        requires
            0 <= k <= 3600,
            0 <= a <= 0xffff_ffff,
    ;
    assert(0 <= k * a * b <= 3600 * 0xffff_ffff * 0xffff_ffff) by (nonlinear_arith)
        requires
            0 <= k * a <= 3600 * 0xffff_ffff,
            0 <= b <= 0xffff_ffff,
    ;
    assert(0 <= k * a * b * c <= 3600 * 0xffff_ffff * 0xffff_ffff * 0xffff_ffff)
        by (nonlinear_arith)
        requires
            0 <= k * a * b <= 3600 * 0xffff_ffff * 0xffff_ffff,
            0 <= c <= 0xffff_ffff,
    ;
    if k >= 1 && a >= 1 && b >= 1 && c >= 1 {
        assert(k * a * b * c >= 1) by (nonlinear_arith)
            requires
                k >= 1 && a >= 1 && b >= 1 && c >= 1,
        ;
    }
}

/// Decodes a well-formed degrees/minutes/seconds triple to the exact
/// nonnegative rational `d + m/60 + s/3600`, written over the common
/// denominator `3600 * d.den * m.den * s.den`.
pub fn triple_to_rational(d: ExifRational, m: ExifRational, s: ExifRational) -> (r:
    SignedRational)
    requires
        d.den != 0,
        m.den != 0,
        s.den != 0,
    ensures
        r.wf(),
        !r.negative,
        r.num as int == spec_triple_num(d, m, s),
        r.den as int == spec_triple_den(d, m, s),
{
    proof {
        lemma_scaled_product_bounds(3600, d.num as int, m.den as int, s.den as int);
        lemma_scaled_product_bounds(60, m.num as int, d.den as int, s.den as int);
        lemma_scaled_product_bounds(1, s.num as int, d.den as int, m.den as int);
        lemma_scaled_product_bounds(3600, d.den as int, m.den as int, s.den as int);
    }
    let t_deg: u128 = 3600 * (d.num as u128) * (m.den as u128) * (s.den as u128);
    let t_min: u128 = 60 * (m.num as u128) * (d.den as u128) * (s.den as u128);
    let t_sec: u128 = (s.num as u128) * (d.den as u128) * (m.den as u128);
    let den: u128 = 3600 * (d.den as u128) * (m.den as u128) * (s.den as u128);
    SignedRational { negative: false, num: t_deg + t_min + t_sec, den }
}

} // verus!
