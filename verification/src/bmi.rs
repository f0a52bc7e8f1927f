//! The derived body-mass index.
//!
//! The index is computed at every insert and update as `10 * weight /
//! height^2` (height is recorded in centimeters, hence the unusual constant)
//! and persisted with the record. With weight and height held in millionths
//! of their units, the quotient is kept as an exact rational number.

use vstd::prelude::*;
use crate::patient::Measure;

verus! {

/// The body-mass index as an exact rational: `num / den`.
#[derive(Clone, Copy, Debug, PartialEq, Eq, Structural)]
pub struct Bmi {
    pub num: i128,
    pub den: i128,
}

/// The view of a [`Bmi`]: the same fraction over unbounded integers.
#[verifier::ext_equal]
pub struct BmiV {
    pub num: int,
    pub den: int,
}

impl View for Bmi {
    type V = BmiV;

    open spec fn view(&self) -> BmiV {
        BmiV { num: self.num as int, den: self.den as int }
    }
}

/// The body-mass index of a record whose weight is `weight_micros`
/// millionths of a kilogram and whose height is `height_micros` millionths
/// of a centimeter: the fraction `10 * weight / height^2`, cleared of its
/// powers of ten.
pub open spec fn spec_bmi(weight_micros: int, height_micros: int) -> BmiV {
    BmiV { num: 10_000_000 * weight_micros, den: height_micros * height_micros }
}

proof fn lemma_bmi_products_fit(w: int, h: int)
    by (nonlinear_arith)
    requires
        -0x8000_0000_0000_0000 <= w <= 0x7fff_ffff_ffff_ffff,
        -0x8000_0000_0000_0000 <= h <= 0x7fff_ffff_ffff_ffff,
    ensures
        i128::MIN <= 10_000_000 * w <= i128::MAX,
        0 <= h * h <= i128::MAX,
{
}

/// The persisted body-mass index for the given weight and height, exact.
pub fn compute_bmi(weight: Measure, height: Measure) -> (r: Bmi)
    ensures
        r@ == spec_bmi(weight@, height@),
{
    let w: i128 = weight.micros as i128;
    let h: i128 = height.micros as i128;
    proof {
        lemma_bmi_products_fit(w as int, h as int);
    }
    Bmi { num: 10_000_000 * w, den: h * h }
}

/// For every positive weight and height, the stored body-mass index equals
/// `10 * weight / height^2` as an exact rational identity.
///
/// With `w` the weight in millionths of a kilogram and `h` the height in
/// millionths of a centimeter, the real-valued equation
/// `bmi == 10 * (w / 10^6) / (h / 10^6)^2` cross-multiplies to the integer
/// identity stated here, and the denominator of the stored fraction is
/// positive, so the fraction denotes a genuine number.
pub proof fn lemma_bmi_formula(w: int, h: int)
    requires
        w > 0,
        h > 0,
    ensures
        spec_bmi(w, h).den > 0,
        spec_bmi(w, h).num > 0,
        spec_bmi(w, h).num * h * h == 10 * w * 1_000_000 * spec_bmi(w, h).den,
{
    assert(h * h > 0) by (nonlinear_arith)
        requires
            h > 0,
    ;
    assert(10_000_000 * w > 0) by (nonlinear_arith)
        requires
            w > 0,
    ;
    assert((10_000_000 * w) * h * h == 10 * w * 1_000_000 * (h * h)) by (nonlinear_arith);
}

} // verus!
