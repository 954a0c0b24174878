//! Fixed-point scalars. Angles, sensitivities and pointer deltas are carried
//! as signed 64-bit integers holding millionths of a unit, so that the
//! accumulator arithmetic is exact and checkable.

use vstd::prelude::*;

verus! {

/// Millionths of a unit per whole unit.
pub const FIXED_SCALE: i64 = 1_000_000;

/// A fixed-point scalar: `raw` millionths of a unit.
#[derive(Clone, Copy, Debug, PartialEq, Eq, Structural)]
pub struct Fixed {
    pub raw: i64,
}

impl View for Fixed {
    type V = int;

    open spec fn view(&self) -> int {
        self.raw as int
    }
}

/// A fixed-point 2-vector, the shape of one pointer-motion delta.
#[derive(Clone, Copy, Debug, PartialEq, Eq, Structural)]
pub struct FixedVec2 {
    pub x: Fixed,
    pub y: Fixed,
}

/// A fixed-point 3-vector, the shape of a world-space point.
#[derive(Clone, Copy, Debug, PartialEq, Eq, Structural)]
pub struct FixedVec3 {
    pub x: Fixed,
    pub y: Fixed,
    pub z: Fixed,
}

/// Division rounding toward zero, as machine division of signed integers does.
pub open spec fn spec_trunc_div(a: int, d: int) -> int
    recommends
        d > 0,
{
    if a >= 0 {
        a / d
    } else {
        -((-a) / d)
    }
}

/// The product of two fixed-point scalars, truncated toward zero.
pub open spec fn spec_fixed_mul(a: int, b: int) -> int {
    spec_trunc_div(a * b, FIXED_SCALE as int)
}

pub open spec fn fits_i64(v: int) -> bool {
    i64::MIN <= v <= i64::MAX
}

/// The symmetric range that `fixed_mul_checked` accepts: magnitudes up to
/// `i64::MAX`, so that the result and its negation both exist.
pub open spec fn fits_sym_i64(v: int) -> bool {
    -(i64::MAX as int) <= v <= i64::MAX as int
}

/// Fixed-point multiplication; `None` exactly when the mathematical result
/// falls outside the symmetric 64-bit range.
pub fn fixed_mul_checked(a: Fixed, b: Fixed) -> (r: Option<Fixed>)
    ensures
        r is Some <==> fits_sym_i64(spec_fixed_mul(a@, b@)),
        r matches Some(v) ==> v@ == spec_fixed_mul(a@, b@),
{
    let pa: i128 = a.raw as i128;
    let pb: i128 = b.raw as i128;
    proof {
        assert(-0x4000_0000_0000_0000_0000_0000_0000_0000int <= pa * pb
            <= 0x4000_0000_0000_0000_0000_0000_0000_0000int) by (nonlinear_arith)
            requires
                -0x8000_0000_0000_0000int <= pa <= 0x8000_0000_0000_0000int,
                -0x8000_0000_0000_0000int <= pb <= 0x8000_0000_0000_0000int,
        ;
    }
    let p: i128 = pa * pb;
    if p >= 0 {
        let m: u128 = p as u128;
        let q: u128 = m / (FIXED_SCALE as u128);
        if q <= i64::MAX as u128 {
            Some(Fixed { raw: q as i64 })
        } else {
            None
        }
    } else {
        let m: u128 = (-p) as u128;
        let q: u128 = m / (FIXED_SCALE as u128);
        if q <= i64::MAX as u128 {
            Some(Fixed { raw: -(q as i64) })
        } else {
            None
        }
    }
}

/// Fixed-point addition; `None` exactly when the sum overflows 64 bits.
pub fn fixed_add_checked(a: Fixed, b: Fixed) -> (r: Option<Fixed>)
    ensures
        r is Some <==> fits_i64(a@ + b@),
        r matches Some(v) ==> v@ == a@ + b@,
{
    let s: i128 = a.raw as i128 + b.raw as i128;
    if i64::MIN as i128 <= s && s <= i64::MAX as i128 {
        Some(Fixed { raw: s as i64 })
    } else {
        None
    }
}

} // verus!
