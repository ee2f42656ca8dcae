use vstd::prelude::*;

verus! {

/// The fixed-point scale: the integer that stands for `1.0`.
pub const ONE: i64 = 1_000_000;

/// The largest magnitude that a product of two quantities may reach before it
/// is rescaled.
pub const MAX_PRODUCT: i64 = 1_000_000_000_000_000_000;

/// `v` limited to the closed range `[lo, hi]`.
pub open spec fn clamp(v: int, lo: int, hi: int) -> int {
    if v < lo {
        lo
    } else if v > hi {
        hi
    } else {
        v
    }
}

/// The product `a * b` rescaled by [`ONE`], rounded toward zero.
pub open spec fn scaled(a: int, b: int) -> int {
    let p = a * b;
    if p >= 0 {
        p / (ONE as int)
    } else {
        -((-p) / (ONE as int))
    }
}

/// `v` limited to the range of `i64`.
pub open spec fn saturate(v: int) -> int {
    clamp(v, i64::MIN as int, i64::MAX as int)
}

/// Fixed-point multiplication: `a * b / ONE`, rounded toward zero.
pub fn mul_scaled(a: i64, b: i64) -> (r: i64)
    requires
        -MAX_PRODUCT <= a * b <= MAX_PRODUCT,
    ensures
        r == scaled(a as int, b as int),
{
    let p: i64 = a * b;
    if p >= 0 {
        p / ONE
    } else {
        -((-p) / ONE)
    }
}

/// Addition that stops at the bounds of `i64` instead of overflowing.
pub fn sat_add(a: i64, b: i64) -> (r: i64)
    ensures
        r == saturate(a + b),
{
    if b > 0 && a > i64::MAX - b {
        i64::MAX
    } else if b < 0 && a < i64::MIN - b {
        i64::MIN
    } else {
        a + b
    }
}

/// A vector of three fixed-point components.
#[derive(Clone, Copy, Debug, PartialEq, Eq)]
pub struct Vec3i {
    pub x: i64,
    pub y: i64,
    pub z: i64,
}

impl Vec3i {
    /// The zero vector.
    pub fn zero() -> (r: Vec3i)
        ensures
            r.x == 0 && r.y == 0 && r.z == 0,
    {
        Vec3i { x: 0, y: 0, z: 0 }
    }

    /// A vector from its components.
    pub fn new(x: i64, y: i64, z: i64) -> (r: Vec3i)
        ensures
            r.x == x && r.y == y && r.z == z,
    {
        Vec3i { x, y, z }
    }

    /// Every component has magnitude at most `bound`.
    pub open spec fn within(self, bound: int) -> bool {
        -bound <= self.x <= bound && -bound <= self.y <= bound && -bound <= self.z <= bound
    }
}

} // verus!
