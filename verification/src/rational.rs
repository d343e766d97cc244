//! Exact arithmetic on fractions of machine integers: scale factors, saved
//! coordinates, and rounding to whole pixels.
//!
//! Every quantity that is not a whole number is carried as a fraction with a
//! positive denominator, so that each result below is stated, and computed,
//! without any loss.

use vstd::prelude::*;

verus! {

/// The integer nearest to `numer / denom`, for `denom > 0`. A value exactly
/// half way between two integers goes to the one farther from zero.
pub open spec fn round_half_away(numer: int, denom: int) -> int {
    if numer >= 0 {
        (2 * numer + denom) / (2 * denom)
    } else {
        -((denom - 2 * numer) / (2 * denom))
    }
}

/// `v` brought into the range of `i32`.
pub open spec fn saturate_i32(v: int) -> int {
    if v < i32::MIN as int {
        i32::MIN as int
    } else if v > i32::MAX as int {
        i32::MAX as int
    } else {
        v
    }
}

/// `v` brought into the range of `u32`.
pub open spec fn saturate_u32(v: int) -> int {
    if v < 0 {
        0
    } else if v > u32::MAX as int {
        u32::MAX as int
    } else {
        v
    }
}

/// Magnitudes up to this bound can be doubled and added without leaving `i128`.
pub open spec fn fits_rounding(v: int) -> bool {
    -0x1000_0000_0000_0000_0000_0000_0000 <= v <= 0x1000_0000_0000_0000_0000_0000_0000
}

/// `round_half_away` is what its name says: the result is within one half of
/// the exact quotient, it has the sign of the numerator, and on a tie it is the
/// candidate of larger magnitude.
pub proof fn lemma_round_half_away_is_nearest(numer: int, denom: int)
    requires
        denom > 0,
    ensures
        ({
            let r = round_half_away(numer, denom);
            &&& 2 * (numer - r * denom) <= denom
            &&& 2 * (r * denom - numer) <= denom
            &&& numer >= 0 ==> r >= 0 && 2 * (numer - r * denom) < denom
            &&& numer < 0 ==> r <= 0 && 2 * (r * denom - numer) < denom
        }),
{
    let m = if numer >= 0 { numer } else { -numer };
    let q = (2 * m + denom) / (2 * denom);
    assert(0 <= q && 0 <= 2 * m + denom - q * (2 * denom) < 2 * denom) by (nonlinear_arith)
        requires
            m >= 0,
            denom > 0,
            q == (2 * m + denom) / (2 * denom),
    ;
    assert(q * (2 * denom) == 2 * (q * denom)) by (nonlinear_arith);
    if numer >= 0 {
        assert(round_half_away(numer, denom) == q);
    } else {
        assert(denom - 2 * numer == 2 * m + denom);
        assert(round_half_away(numer, denom) == -q);
        assert((-q) * denom == -(q * denom)) by (nonlinear_arith);
    }
}

/// An integer is its own rounding.
pub proof fn lemma_round_half_away_whole(n: int, denom: int)
    requires
        denom > 0,
    ensures
        round_half_away(n * denom, denom) == n,
{
    lemma_round_half_away_is_nearest(n * denom, denom);
    let r = round_half_away(n * denom, denom);
    assert(n * denom - r * denom == (n - r) * denom) by (nonlinear_arith);
    assert(r == n) by (nonlinear_arith)
        requires
            denom > 0,
            2 * ((n - r) * denom) <= denom,
            -2 * ((n - r) * denom) <= denom,
    ;
}

/// Rounds the quotient of two `i128` values to the nearest integer, ties away
/// from zero.
pub fn round_div(numer: i128, denom: i128) -> (r: i128)
    requires
        denom > 0,
        fits_rounding(numer as int),
        fits_rounding(denom as int),
    ensures
        r == round_half_away(numer as int, denom as int),
{
    let twice: u128 = 2 * (denom as u128);
    if numer >= 0 {
        let q: u128 = (2 * (numer as u128) + (denom as u128)) / twice;
        assert(q <= 2 * numer + denom) by (nonlinear_arith)
            requires
                q == (2 * numer + denom) / (2 * denom),
                numer >= 0,
                denom > 0,
        ;
        q as i128
    } else {
        let m: u128 = (-numer) as u128;
        let q: u128 = (2 * m + (denom as u128)) / twice;
        assert(q <= 2 * m + denom) by (nonlinear_arith)
            requires
                q == (2 * m + denom) / (2 * denom),
                m >= 0,
                denom > 0,
        ;
        -(q as i128)
    }
}

/// Brings a wide integer into the range of `i32`.
pub fn clamp_i32(v: i128) -> (r: i32)
    ensures
        r == saturate_i32(v as int),
{
    if v < -2147483648 {
        -2147483648
    } else if v > 2147483647 {
        2147483647
    } else {
        v as i32
    }
}

/// Brings a wide integer into the range of `u32`.
pub fn clamp_u32(v: i128) -> (r: u32)
    ensures
        r == saturate_u32(v as int),
{
    if v < 0 {
        0
    } else if v > 4294967295 {
        4294967295
    } else {
        v as u32
    }
}

/// A fraction `numer / denom`. It is well formed when the denominator is
/// positive; the fraction need not be in lowest terms.
#[derive(Clone, Copy, Debug, PartialEq, Eq, Structural)]
pub struct Rational {
    pub numer: i64,
    pub denom: i64,
}

impl Rational {
    pub open spec fn wf(self) -> bool {
        self.denom > 0
    }

    /// The fraction lies in the closed interval from -1 to 1.
    pub open spec fn spec_within_unit(self) -> bool {
        -self.denom <= self.numer <= self.denom
    }

    /// The fraction `numer / denom`, or nothing when `denom` is not positive.
    pub fn new(numer: i64, denom: i64) -> (r: Option<Rational>)
        ensures
            r == (if denom > 0 {
                Some(Rational { numer, denom })
            } else {
                None
            }),
    {
        if denom > 0 {
            Some(Rational { numer, denom })
        } else {
            None
        }
    }

    /// The whole number `n`.
    pub fn whole(n: i64) -> (r: Rational)
        ensures
            r == (Rational { numer: n, denom: 1 }),
            r.wf(),
    {
        Rational { numer: n, denom: 1 }
    }

    /// Whether the absolute value is at most one.
    #[verifier::when_used_as_spec(spec_within_unit)]
    pub fn within_unit(self) -> (b: bool)
        requires
            self.wf(),
        ensures
            b == self.spec_within_unit(),
    {
        self.numer <= self.denom && self.numer >= -self.denom
    }
}

/// A display scale factor `numer / denom`: the number of physical pixels in
/// one logical unit. Both parts are positive.
#[derive(Clone, Copy, Debug, PartialEq, Eq, Structural)]
pub struct Scale {
    pub numer: u32,
    pub denom: u32,
}

impl Scale {
    pub open spec fn wf(self) -> bool {
        self.numer > 0 && self.denom > 0
    }

    /// The scale `numer / denom`, or nothing when either part is zero.
    pub fn new(numer: u32, denom: u32) -> (r: Option<Scale>)
        ensures
            r == (if numer > 0 && denom > 0 {
                Some(Scale { numer, denom })
            } else {
                None
            }),
    {
        if numer > 0 && denom > 0 {
            Some(Scale { numer, denom })
        } else {
            None
        }
    }

    /// The scale at which one logical unit is one physical pixel.
    pub fn identity() -> (r: Scale)
        ensures
            r == (Scale { numer: 1, denom: 1 }),
            r.wf(),
    {
        Scale { numer: 1, denom: 1 }
    }

    /// The physical length of `logical` units at this scale, before rounding
    /// to the range of any machine type.
    pub open spec fn spec_to_physical(self, logical: int) -> int {
        round_half_away(logical * self.numer, self.denom as int)
    }

    /// The physical length, rounded to the nearest pixel, of `logical` units.
    pub fn to_physical(self, logical: u32) -> (r: i128)
        requires
            self.wf(),
        ensures
            r == self.spec_to_physical(logical as int),
            0 <= r <= logical * self.numer,
    {
        assert(0 <= logical * self.numer <= 0xffff_ffff * 0xffff_ffff) by (nonlinear_arith)
            requires
                0 <= logical <= 0xffff_ffff,
                0 <= self.numer <= 0xffff_ffff,
        ;
        let product: i128 = (logical as i128) * (self.numer as i128);
        let r: i128 = round_div(product, self.denom as i128);
        proof {
            lemma_round_half_away_is_nearest(product as int, self.denom as int);
            assert(r <= product) by (nonlinear_arith)
                requires
                    r >= 0,
                    self.denom >= 1,
                    2 * (r * self.denom - product) <= self.denom,
                    product >= 0,
            ;
        }
        r
    }
}

} // verus!
