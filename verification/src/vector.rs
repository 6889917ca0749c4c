//! Two- and three-component vectors of fixed-point quantities.

use vstd::prelude::*;
use crate::fixed::{Fixed, ONE, trunc_div, fx_add, fx_add_spec, fx_mul, fx_mul_spec};

verus! {

/// A point or displacement in the plane.
#[derive(Clone, Copy, Debug, PartialEq, Eq, Structural)]
pub struct Vec2 {
    pub x: Fixed,
    pub y: Fixed,
}

/// A point or displacement in space; `z` is the drawing depth.
#[derive(Clone, Copy, Debug, PartialEq, Eq, Structural)]
pub struct Vec3 {
    pub x: Fixed,
    pub y: Fixed,
    pub z: Fixed,
}

/// `r` is the integer square root of `n`, rounded down.
pub open spec fn is_floor_sqrt(n: int, r: int) -> bool {
    0 <= r && r * r <= n && n < (r + 1) * (r + 1)
}

/// The integer square root of `n`, rounded down.
pub open spec fn floor_sqrt(n: int) -> int {
    choose|r: int| is_floor_sqrt(n, r)
}

/// A number has at most one rounded-down square root.
pub proof fn lemma_floor_sqrt_unique(n: int, r: int)
    requires
        is_floor_sqrt(n, r),
    ensures
        floor_sqrt(n) == r,
{
    let s = floor_sqrt(n);
    assert(is_floor_sqrt(n, s));
    if s < r {
        assert((s + 1) * (s + 1) <= r * r) by (nonlinear_arith)
            requires
                0 <= s < r,
        ;
    } else if r < s {
        assert((r + 1) * (r + 1) <= s * s) by (nonlinear_arith)
            requires
                0 <= r < s,
        ;
    }
}

/// Every number from zero on has a rounded-down square root.
pub proof fn lemma_floor_sqrt_exists(n: int)
    requires
        n >= 0,
    ensures
        is_floor_sqrt(n, floor_sqrt(n)),
    decreases n,
{
    if n == 0 {
        assert(is_floor_sqrt(0, 0));
    } else {
        lemma_floor_sqrt_exists(n - 1);
        let r = floor_sqrt(n - 1);
        if n < (r + 1) * (r + 1) {
            assert(is_floor_sqrt(n, r));
        } else {
            assert((r + 2) * (r + 2) > (r + 1) * (r + 1)) by (nonlinear_arith)
                requires
                    r >= 0,
            ;
            assert(is_floor_sqrt(n, r + 1));
        }
    }
}

/// Computes the integer square root of `n`, rounded down.
pub fn isqrt(n: u128) -> (r: u128)
    ensures
        r == floor_sqrt(n as int),
        is_floor_sqrt(n as int, r as int),
        r < 0x1_0000_0000_0000_0000,
{
    let mut lo: u128 = 0;
    let mut hi: u128 = 0x1_0000_0000_0000_0000;
    assert(n < hi * hi) by (nonlinear_arith)
        requires
            hi == 0x1_0000_0000_0000_0000,
            n <= 0xffff_ffff_ffff_ffff_ffff_ffff_ffff_ffff,
    ;
    while hi - lo > 1
        invariant
            lo < hi <= 0x1_0000_0000_0000_0000,
            lo * lo <= n,
            n < hi * hi,
        decreases hi - lo,
    {
        let mid: u128 = lo + (hi - lo) / 2;
        assert(mid * mid <= 0xffff_ffff_ffff_ffff * 0xffff_ffff_ffff_ffff) by (nonlinear_arith)
            requires
                0 <= mid <= 0xffff_ffff_ffff_ffff,
        ;
        if mid * mid <= n {
            lo = mid;
        } else {
            hi = mid;
        }
    }
    proof {
        assert(hi == lo + 1);
        lemma_floor_sqrt_unique(n as int, lo as int);
    }
    lo
}

/// The magnitude of a fixed-point quantity.
pub open spec fn magnitude(v: int) -> int {
    if v >= 0 {
        v
    } else {
        -v
    }
}

fn magnitude_of(v: Fixed) -> (r: u128)
    ensures
        r == magnitude(v as int),
        r <= 0x8000_0000_0000_0000,
{
    if v >= 0 {
        v as u128
    } else {
        (-(v as i128)) as u128
    }
}

fn square(m: u128) -> (r: u128)
    requires
        m <= 0x8000_0000_0000_0000,
    ensures
        r == m * m,
        r <= 0x4000_0000_0000_0000_0000_0000_0000_0000,
{
    assert(m * m <= 0x4000_0000_0000_0000_0000_0000_0000_0000) by (nonlinear_arith)
        requires
            0 <= m <= 0x8000_0000_0000_0000,
    ;
    m * m
}

/// If `len` is the rounded-down root of a sum of squares that includes the
/// square of `c`, then `c` scaled by `ONE / len` lies between `-ONE` and `ONE`.
proof fn lemma_component_bounded(c: int, rest: int, len: int)
    requires
        rest >= 0,
        is_floor_sqrt(c * c + rest, len),
        len > 0,
    ensures
        magnitude(c) <= len,
        -ONE <= trunc_div(c * ONE, len) <= ONE,
{
    let m = magnitude(c);
    assert(m * m == c * c) by (nonlinear_arith)
        requires
            m == c || m == -c,
    ;
    if m > len {
        assert((len + 1) * (len + 1) <= m * m) by (nonlinear_arith)
            requires
                0 <= len < m,
        ;
    }
    if c >= 0 {
        assert((c * ONE) / len <= ONE) by (nonlinear_arith)
            requires
                0 <= c <= len,
                len > 0,
                ONE == 1_000_000,
        ;
        assert((c * ONE) / len >= 0) by (nonlinear_arith)
            requires
                0 <= c,
                len > 0,
                ONE == 1_000_000,
        ;
        assert(c * ONE >= 0) by (nonlinear_arith)
            requires
                0 <= c,
                ONE == 1_000_000,
        ;
    } else {
        assert(-(c * ONE) == (-c) * ONE) by (nonlinear_arith);
        assert(((-c) * ONE) / len <= ONE) by (nonlinear_arith)
            requires
                0 <= -c <= len,
                len > 0,
                ONE == 1_000_000,
        ;
        assert(((-c) * ONE) / len >= 0) by (nonlinear_arith)
            requires
                0 <= -c,
                len > 0,
                ONE == 1_000_000,
        ;
        assert(c * ONE < 0) by (nonlinear_arith)
            requires
                c < 0,
                ONE == 1_000_000,
        ;
    }
}

fn scale_component(c: Fixed, len: u128, Ghost(rest): Ghost<int>) -> (r: Fixed)
    requires
        rest >= 0,
        is_floor_sqrt(c * c + rest, len as int),
        0 < len < 0x1_0000_0000_0000_0000,
    ensures
        r == trunc_div(c * ONE, len as int),
        -ONE <= r <= ONE,
{
    proof {
        lemma_component_bounded(c as int, rest, len as int);
    }
    let n: i128 = (c as i128) * (ONE as i128);
    let q: i128 = n / (len as i128);
    q as i64
}

impl Vec2 {
    /// The vector with the given components.
    pub fn new(x: Fixed, y: Fixed) -> (r: Vec2)
        ensures
            r == (Vec2 { x, y }),
    {
        Vec2 { x, y }
    }

    /// The zero vector.
    pub open spec fn zero_spec() -> Vec2 {
        Vec2 { x: 0, y: 0 }
    }

    /// The zero vector.
    pub fn zero() -> (r: Vec2)
        ensures
            r == Vec2::zero_spec(),
    {
        Vec2 { x: 0, y: 0 }
    }

    /// The sum of the squares of the components.
    pub open spec fn length_squared_spec(self) -> int {
        self.x * self.x + self.y * self.y
    }

    /// The length of the vector, rounded down to a whole fixed-point step.
    pub open spec fn length_spec(self) -> int {
        floor_sqrt(self.length_squared_spec())
    }

    /// The vector scaled to length one, or the zero vector when it is zero.
    pub open spec fn normalize_or_zero_spec(self) -> Vec2 {
        if self.x == 0 && self.y == 0 {
            Vec2::zero_spec()
        } else {
            Vec2 {
                x: trunc_div(self.x * ONE, self.length_spec()) as i64,
                y: trunc_div(self.y * ONE, self.length_spec()) as i64,
            }
        }
    }

    /// Component-wise saturating sum.
    pub open spec fn plus_spec(self, other: Vec2) -> Vec2 {
        Vec2 {
            x: fx_add_spec(self.x as int, other.x as int) as i64,
            y: fx_add_spec(self.y as int, other.y as int) as i64,
        }
    }

    /// Component-wise saturating sum.
    pub fn plus(self, other: Vec2) -> (r: Vec2)
        ensures
            r == self.plus_spec(other),
    {
        Vec2 { x: fx_add(self.x, other.x), y: fx_add(self.y, other.y) }
    }

    /// The length of the vector, rounded down to a whole fixed-point step.
    pub fn length(self) -> (r: u128)
        ensures
            r == self.length_spec(),
            is_floor_sqrt(self.length_squared_spec(), r as int),
            r < 0x1_0000_0000_0000_0000,
    {
        let mx: u128 = magnitude_of(self.x);
        let my: u128 = magnitude_of(self.y);
        let sx: u128 = square(mx);
        let sy: u128 = square(my);
        assert(mx * mx == self.x * self.x) by (nonlinear_arith)
            requires
                mx == self.x || mx == -self.x,
        ;
        assert(my * my == self.y * self.y) by (nonlinear_arith)
            requires
                my == self.y || my == -self.y,
        ;
        isqrt(sx + sy)
    }

    /// Scales the vector to length one. The zero vector stays zero.
    pub fn normalize_or_zero(self) -> (r: Vec2)
        ensures
            r == self.normalize_or_zero_spec(),
            -ONE <= r.x <= ONE,
            -ONE <= r.y <= ONE,
            (self.x == 0 && self.y == 0) <==> (r.x == 0 && r.y == 0),
    {
        if self.x == 0 && self.y == 0 {
            return Vec2 { x: 0, y: 0 };
        }
        let len: u128 = self.length();
        proof {
            lemma_length_positive(self.x as int, self.y as int, 0, len as int);
            assert(self.y * self.y >= 0) by (nonlinear_arith);
            assert(self.x * self.x >= 0) by (nonlinear_arith);
            assert(self.y * self.y + self.x * self.x == self.x * self.x + self.y * self.y);
        }
        let x: Fixed = scale_component(self.x, len, Ghost(self.y * self.y));
        let y: Fixed = scale_component(self.y, len, Ghost(self.x * self.x));
        proof {
            lemma_unit_nonzero(self.x as int, self.y as int, 0, len as int);
        }
        Vec2 { x, y }
    }
}

impl Vec3 {
    /// The vector with the given components.
    pub fn new(x: Fixed, y: Fixed, z: Fixed) -> (r: Vec3)
        ensures
            r == (Vec3 { x, y, z }),
    {
        Vec3 { x, y, z }
    }

    /// The zero vector.
    pub open spec fn zero_spec() -> Vec3 {
        Vec3 { x: 0, y: 0, z: 0 }
    }

    /// The zero vector.
    pub fn zero() -> (r: Vec3)
        ensures
            r == Vec3::zero_spec(),
    {
        Vec3 { x: 0, y: 0, z: 0 }
    }

    /// Whether every component is zero.
    pub open spec fn is_zero_spec(self) -> bool {
        self.x == 0 && self.y == 0 && self.z == 0
    }

    /// Whether every component is zero.
    pub fn is_zero(self) -> (r: bool)
        ensures
            r == self.is_zero_spec(),
    {
        self.x == 0 && self.y == 0 && self.z == 0
    }

    /// The sum of the squares of the components.
    pub open spec fn length_squared_spec(self) -> int {
        self.x * self.x + self.y * self.y + self.z * self.z
    }

    /// The length of the vector, rounded down to a whole fixed-point step.
    pub open spec fn length_spec(self) -> int {
        floor_sqrt(self.length_squared_spec())
    }

    /// The vector scaled to length one, or the zero vector when it is zero.
    pub open spec fn normalize_or_zero_spec(self) -> Vec3 {
        if self.is_zero_spec() {
            Vec3::zero_spec()
        } else {
            Vec3 {
                x: trunc_div(self.x * ONE, self.length_spec()) as i64,
                y: trunc_div(self.y * ONE, self.length_spec()) as i64,
                z: trunc_div(self.z * ONE, self.length_spec()) as i64,
            }
        }
    }

    /// Component-wise saturating sum.
    pub open spec fn plus_spec(self, other: Vec3) -> Vec3 {
        Vec3 {
            x: fx_add_spec(self.x as int, other.x as int) as i64,
            y: fx_add_spec(self.y as int, other.y as int) as i64,
            z: fx_add_spec(self.z as int, other.z as int) as i64,
        }
    }

    /// Every component multiplied by `factor`, saturating.
    pub open spec fn scaled_spec(self, factor: Fixed) -> Vec3 {
        Vec3 {
            x: fx_mul_spec(self.x as int, factor as int) as i64,
            y: fx_mul_spec(self.y as int, factor as int) as i64,
            z: fx_mul_spec(self.z as int, factor as int) as i64,
        }
    }

    /// Component-wise saturating sum.
    pub fn plus(self, other: Vec3) -> (r: Vec3)
        ensures
            r == self.plus_spec(other),
    {
        Vec3 {
            x: fx_add(self.x, other.x),
            y: fx_add(self.y, other.y),
            z: fx_add(self.z, other.z),
        }
    }

    /// Multiplies every component by `factor`, saturating.
    pub fn scaled(self, factor: Fixed) -> (r: Vec3)
        ensures
            r == self.scaled_spec(factor),
    {
        Vec3 {
            x: fx_mul(self.x, factor),
            y: fx_mul(self.y, factor),
            z: fx_mul(self.z, factor),
        }
    }

    /// The length of the vector, rounded down to a whole fixed-point step.
    pub fn length(self) -> (r: u128)
        ensures
            r == self.length_spec(),
            is_floor_sqrt(self.length_squared_spec(), r as int),
            r < 0x1_0000_0000_0000_0000,
    {
        let mx: u128 = magnitude_of(self.x);
        let my: u128 = magnitude_of(self.y);
        let mz: u128 = magnitude_of(self.z);
        let sx: u128 = square(mx);
        let sy: u128 = square(my);
        let sz: u128 = square(mz);
        assert(mx * mx == self.x * self.x) by (nonlinear_arith)
            requires
                mx == self.x || mx == -self.x,
        ;
        assert(my * my == self.y * self.y) by (nonlinear_arith)
            requires
                my == self.y || my == -self.y,
        ;
        assert(mz * mz == self.z * self.z) by (nonlinear_arith)
            requires
                mz == self.z || mz == -self.z,
        ;
        isqrt(sx + sy + sz)
    }

    /// Scales the vector to length one. The zero vector stays zero, and no
    /// other vector becomes zero.
    pub fn normalize_or_zero(self) -> (r: Vec3)
        ensures
            r == self.normalize_or_zero_spec(),
            -ONE <= r.x <= ONE,
            -ONE <= r.y <= ONE,
            -ONE <= r.z <= ONE,
            self.is_zero_spec() <==> r.is_zero_spec(),
    {
        if self.x == 0 && self.y == 0 && self.z == 0 {
            return Vec3 { x: 0, y: 0, z: 0 };
        }
        let len: u128 = self.length();
        let ghost xx = self.x * self.x;
        let ghost yy = self.y * self.y;
        let ghost zz = self.z * self.z;
        proof {
            lemma_length_positive(self.x as int, self.y as int, self.z as int, len as int);
            assert(xx >= 0 && yy >= 0 && zz >= 0) by (nonlinear_arith)
                requires
                    xx == self.x * self.x,
                    yy == self.y * self.y,
                    zz == self.z * self.z,
            ;
            assert(yy + (xx + zz) == xx + yy + zz);
            assert(zz + (xx + yy) == xx + yy + zz);
            assert(xx + (yy + zz) == xx + yy + zz);
        }
        let x: Fixed = scale_component(self.x, len, Ghost(yy + zz));
        let y: Fixed = scale_component(self.y, len, Ghost(xx + zz));
        let z: Fixed = scale_component(self.z, len, Ghost(xx + yy));
        proof {
            lemma_unit_nonzero(self.x as int, self.y as int, self.z as int, len as int);
        }
        Vec3 { x, y, z }
    }
}

/// Scaling to length one keeps a non-zero vector non-zero and puts every
/// component between minus one and one.
pub proof fn lemma_normalize_nonzero(v: Vec3)
    requires
        !v.is_zero_spec(),
    ensures
        !v.normalize_or_zero_spec().is_zero_spec(),
        -ONE <= v.normalize_or_zero_spec().x <= ONE,
        -ONE <= v.normalize_or_zero_spec().y <= ONE,
        -ONE <= v.normalize_or_zero_spec().z <= ONE,
{
    let xx = v.x * v.x;
    let yy = v.y * v.y;
    let zz = v.z * v.z;
    assert(xx >= 0 && yy >= 0 && zz >= 0) by (nonlinear_arith)
        requires
            xx == v.x * v.x,
            yy == v.y * v.y,
            zz == v.z * v.z,
    ;
    lemma_floor_sqrt_exists(xx + yy + zz);
    let len = v.length_spec();
    lemma_length_positive(v.x as int, v.y as int, v.z as int, len);
    assert(yy + (xx + zz) == xx + yy + zz);
    assert(zz + (xx + yy) == xx + yy + zz);
    assert(xx + (yy + zz) == xx + yy + zz);
    lemma_component_bounded(v.x as int, yy + zz, len);
    lemma_component_bounded(v.y as int, xx + zz, len);
    lemma_component_bounded(v.z as int, xx + yy, len);
    lemma_unit_nonzero(v.x as int, v.y as int, v.z as int, len);
}

/// Normalizing the zero vector gives the zero vector.
pub proof fn lemma_normalize_zero_is_zero()
    ensures
        Vec3::zero_spec().normalize_or_zero_spec() == Vec3::zero_spec(),
        Vec2::zero_spec().normalize_or_zero_spec() == Vec2::zero_spec(),
{
}

/// A non-zero vector has a rounded-down length of at least one step.
pub proof fn lemma_length_positive(x: int, y: int, z: int, len: int)
    requires
        x != 0 || y != 0 || z != 0,
        is_floor_sqrt(x * x + y * y + z * z, len),
    ensures
        len >= 1,
{
    assert(x * x >= 0 && y * y >= 0 && z * z >= 0) by (nonlinear_arith);
    if x != 0 {
        assert(x * x >= 1) by (nonlinear_arith)
            requires
                x != 0,
        ;
    } else if y != 0 {
        assert(y * y >= 1) by (nonlinear_arith)
            requires
                y != 0,
        ;
    } else {
        assert(z * z >= 1) by (nonlinear_arith)
            requires
                z != 0,
        ;
    }
    if len <= 0 {
        assert((len + 1) * (len + 1) <= 1) by (nonlinear_arith)
            requires
                len == 0,
        ;
    }
}

/// Scaling a non-zero vector to length one leaves at least one component
/// non-zero.
pub proof fn lemma_unit_nonzero(x: int, y: int, z: int, len: int)
    requires
        x != 0 || y != 0 || z != 0,
        is_floor_sqrt(x * x + y * y + z * z, len),
    ensures
        trunc_div(x * ONE, len) != 0 || trunc_div(y * ONE, len) != 0 || trunc_div(z * ONE, len)
            != 0,
{
    lemma_length_positive(x, y, z, len);
    let mx = magnitude(x);
    let my = magnitude(y);
    let mz = magnitude(z);
    assert(mx * mx == x * x && my * my == y * y && mz * mz == z * z) by (nonlinear_arith)
        requires
            mx == x || mx == -x,
            my == y || my == -y,
            mz == z || mz == -z,
    ;
    // The largest component is at least len / 2, so it scales to at least ONE / 2.
    let m = if mx >= my && mx >= mz {
        mx
    } else if my >= mz {
        my
    } else {
        mz
    };
    assert(mx * mx <= m * m && my * my <= m * m && mz * mz <= m * m) by (nonlinear_arith)
        requires
            0 <= mx <= m,
            0 <= my <= m,
            0 <= mz <= m,
    ;
    assert(len <= 2 * m) by {
        if len > 2 * m {
            assert(len * len > 3 * (m * m)) by (nonlinear_arith)
                requires
                    len > 2 * m,
                    m >= 1,
            ;
        }
    }
    if mx >= my && mx >= mz {
        lemma_scaled_nonzero(x, len);
    } else if my >= mz {
        lemma_scaled_nonzero(y, len);
    } else {
        lemma_scaled_nonzero(z, len);
    }
}

/// A component that is at least half as long as the whole vector does not
/// vanish when the vector is scaled to length one.
proof fn lemma_scaled_nonzero(c: int, len: int)
    requires
        magnitude(c) >= 1,
        1 <= len <= 2 * magnitude(c),
    ensures
        trunc_div(c * ONE, len) != 0,
{
    let m = magnitude(c);
    assert((m * ONE) / len >= 1) by (nonlinear_arith)
        requires
            len >= 1,
            len <= 2 * m,
            m >= 1,
            ONE == 1_000_000,
    ;
    if c >= 0 {
        assert(c * ONE >= 0) by (nonlinear_arith)
            requires
                c >= 0,
                ONE == 1_000_000,
        ;
    } else {
        assert(c * ONE < 0) by (nonlinear_arith)
            requires
                c < 0,
                ONE == 1_000_000,
        ;
        assert(-(c * ONE) == (-c) * ONE) by (nonlinear_arith);
    }
}

} // verus!
