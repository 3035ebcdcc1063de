use vstd::prelude::*;

use crate::error::SimError;

verus! {

/// Number of raw units in one unit of a quantity: values have a resolution of 10^-9.
pub const SCALE: i64 = 1_000_000_000;

/// A real quantity held exactly as `raw / SCALE`.
#[derive(Clone, Copy, Debug, PartialEq, Eq, Structural)]
pub struct Fixed {
    pub raw: i64,
}

/// `x` is representable as the raw value of a `Fixed`.
pub open spec fn fits(x: int) -> bool {
    i64::MIN <= x <= i64::MAX
}

/// `x` as a `Fixed`, or the numerical error when it is out of range.
pub open spec fn checked(x: int) -> Result<Fixed, SimError> {
    if fits(x) {
        Ok(Fixed { raw: x as i64 })
    } else {
        Err(SimError::Numerical)
    }
}

/// Integer quotient of `a` by a positive `d`, rounded toward zero.
pub open spec fn div_trunc(a: int, d: int) -> int {
    if a >= 0 {
        a / d
    } else {
        -((-a) / d)
    }
}

/// Raw value of `h * k / d` for raw values `h` and `k` and a positive divisor `d`
/// (`d == SCALE` is the fixed-point product), rounded toward zero.
pub open spec fn scaled_product(h: int, k: int, d: int) -> int {
    div_trunc(h * k, d)
}

impl Fixed {
    /// The quantity `raw / SCALE`.
    pub fn from_raw(raw: i64) -> (r: Fixed)
        ensures
            r.raw == raw,
    {
        Fixed { raw }
    }

    /// The whole number `n`, if it is representable.
    pub fn from_int(n: i64) -> (r: Option<Fixed>)
        ensures
            fits(n * SCALE) ==> r == Some(Fixed { raw: (n * SCALE) as i64 }),
            !fits(n * SCALE) ==> r.is_none(),
    {
        match n.checked_mul(SCALE) {
            Some(raw) => Some(Fixed { raw }),
            None => None,
        }
    }

    /// The quantity zero.
    pub fn zero() -> (r: Fixed)
        ensures
            r.raw == 0,
    {
        Fixed { raw: 0 }
    }
}

/// A wide integer as a `Fixed`, or the numerical error when it is out of range.
pub fn narrow(x: i128) -> (r: Result<Fixed, SimError>)
    ensures
        r == checked(x as int),
{
    if i64::MIN as i128 <= x && x <= i64::MAX as i128 {
        Ok(Fixed { raw: x as i64 })
    } else {
        Err(SimError::Numerical)
    }
}

/// `h * k / d` on raw values, computed without loss before the one rounding toward zero.
pub fn mul_div(h: i64, k: i64, d: u64) -> (r: i128)
    requires
        d > 0,
    ensures
        r == scaled_product(h as int, k as int, d as int),
        -0x4000_0000_0000_0000_0000_0000_0000_0000 <= r <= 0x4000_0000_0000_0000_0000_0000_0000_0000,
{
    proof {
        let hi = h as int;
        let ki = k as int;
        assert(-0x4000_0000_0000_0000_0000_0000_0000_0000 <= hi * ki
            <= 0x4000_0000_0000_0000_0000_0000_0000_0000) by (nonlinear_arith)
            requires
                -0x8000_0000_0000_0000 <= hi <= 0x7fff_ffff_ffff_ffff,
                -0x8000_0000_0000_0000 <= ki <= 0x7fff_ffff_ffff_ffff,
        ;
    }
    let p: i128 = (h as i128) * (k as i128);
    if p >= 0 {
        let m: u128 = p as u128;
        let q: u128 = m / (d as u128);
        assert(q <= m) by (nonlinear_arith)
            requires
                q as int == (m as int) / (d as int),
                d > 0,
                m >= 0,
        ;
        q as i128
    } else {
        let m: u128 = (-p) as u128;
        let q: u128 = m / (d as u128);
        assert(q <= m) by (nonlinear_arith)
            requires
                q as int == (m as int) / (d as int),
                d > 0,
                m >= 0,
        ;
        -(q as i128)
    }
}

} // verus!
