//! Fixed-point arithmetic for the simulation.
//!
//! Every quantity of the simulation (positions, speeds, weights, sizes, time
//! steps) is a signed 64-bit count of millionths of a unit. All operations
//! saturate at the ends of the 64-bit range, so none of them can fail.

use vstd::prelude::*;

verus! {

/// A quantity in millionths of a unit.
pub type Fixed = i64;

/// The fixed-point representation of `1`.
pub const ONE: i64 = 1_000_000;

/// The fixed-point representation of `0.01`: the grid that facing decisions
/// are truncated to.
pub const HUNDREDTH: i64 = 10_000;

/// Integer division that rounds toward zero.
pub open spec fn trunc_div(a: int, b: int) -> int
    recommends
        b > 0,
{
    if a >= 0 {
        a / b
    } else {
        -((-a) / b)
    }
}

/// The nearest value to `v` that a `Fixed` can hold.
pub open spec fn clamp64(v: int) -> int {
    if v < i64::MIN {
        i64::MIN as int
    } else if v > i64::MAX {
        i64::MAX as int
    } else {
        v
    }
}

/// Saturating sum.
pub open spec fn fx_add_spec(a: int, b: int) -> int {
    clamp64(a + b)
}

/// Saturating difference.
pub open spec fn fx_sub_spec(a: int, b: int) -> int {
    clamp64(a - b)
}

/// Saturating fixed-point product, rounded toward zero.
pub open spec fn fx_mul_spec(a: int, b: int) -> int {
    clamp64(trunc_div(a * b, ONE as int))
}

/// Saturating fixed-point quotient, rounded toward zero; zero when the
/// divisor is zero.
pub open spec fn fx_div_spec(a: int, b: int) -> int {
    if b == 0 {
        0
    } else if b > 0 {
        clamp64(trunc_div(a * ONE, b))
    } else {
        clamp64(trunc_div(-(a * ONE), -b))
    }
}

/// `v` with everything beyond its second decimal place cut off.
pub open spec fn trunc_hundredths_spec(v: int) -> int {
    trunc_div(v, HUNDREDTH as int) * HUNDREDTH
}

/// A whole number of units as a fixed-point quantity.
pub open spec fn from_int_spec(n: int) -> int {
    clamp64(n * ONE)
}

fn narrow(v: i128) -> (r: i64)
    ensures
        r == clamp64(v as int),
{
    if v < i64::MIN as i128 {
        i64::MIN
    } else if v > i64::MAX as i128 {
        i64::MAX
    } else {
        v as i64
    }
}

fn widening_product(a: i64, b: i64) -> (r: i128)
    ensures
        r == a * b,
{
    assert(-0x4000_0000_0000_0000_0000_0000_0000_0000 <= a * b
        <= 0x4000_0000_0000_0000_0000_0000_0000_0000) by (nonlinear_arith)
        requires
            -0x8000_0000_0000_0000 <= a <= 0x7fff_ffff_ffff_ffff,
            -0x8000_0000_0000_0000 <= b <= 0x7fff_ffff_ffff_ffff,
    ;
    (a as i128) * (b as i128)
}

/// Adds two quantities, saturating at the ends of the range.
pub fn fx_add(a: Fixed, b: Fixed) -> (r: Fixed)
    ensures
        r == fx_add_spec(a as int, b as int),
{
    narrow(a as i128 + b as i128)
}

/// Subtracts `b` from `a`, saturating at the ends of the range.
pub fn fx_sub(a: Fixed, b: Fixed) -> (r: Fixed)
    ensures
        r == fx_sub_spec(a as int, b as int),
{
    narrow(a as i128 - b as i128)
}

/// Multiplies two quantities, rounding toward zero and saturating.
pub fn fx_mul(a: Fixed, b: Fixed) -> (r: Fixed)
    ensures
        r == fx_mul_spec(a as int, b as int),
{
    let p: i128 = widening_product(a, b);
    narrow(p / (ONE as i128))
}

/// Divides `a` by `b`, rounding toward zero and saturating. Division by
/// zero gives zero.
pub fn fx_div(a: Fixed, b: Fixed) -> (r: Fixed)
    ensures
        r == fx_div_spec(a as int, b as int),
{
    if b == 0 {
        return 0;
    }
    let n: i128 = widening_product(a, ONE);
    if b > 0 {
        narrow(n / (b as i128))
    } else {
        narrow((-n) / (-(b as i128)))
    }
}

/// Cuts off everything beyond the second decimal place.
pub fn trunc_hundredths(v: Fixed) -> (r: Fixed)
    ensures
        r == trunc_hundredths_spec(v as int),
{
    let q: i64 = v / HUNDREDTH;
    assert(-0x8000_0000_0000_0000 <= q * 10_000 <= 0x7fff_ffff_ffff_ffff) by {
        if v >= 0 {
            assert(q == v as int / 10_000);
            assert(0 <= (v as int / 10_000) * 10_000 <= v) by (nonlinear_arith)
                requires
                    v >= 0,
            ;
        } else {
            assert(q == -((-v) / 10_000));
            assert(0 <= ((-v) / 10_000) * 10_000 <= -v) by (nonlinear_arith)
                requires
                    v < 0,
            ;
        }
    }
    q * HUNDREDTH
}

/// A whole number of units as a fixed-point quantity, saturating.
pub fn from_int(n: i64) -> (r: Fixed)
    ensures
        r == from_int_spec(n as int),
{
    narrow(widening_product(n, ONE))
}

/// `num / den` units as a fixed-point quantity, rounded toward zero and
/// saturating; zero when `den` is zero.
pub fn from_ratio(num: i64, den: i64) -> (r: Fixed)
    ensures
        r == fx_div_spec(from_int_spec(num as int), from_int_spec(den as int)),
{
    fx_div(from_int(num), from_int(den))
}

} // verus!
