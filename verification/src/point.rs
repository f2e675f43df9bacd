//! Points in space: x to the right, y forward, z up.
use vstd::prelude::*;
use crate::fixed::{lemma_lerp_between, lemma_lerp_end, lemma_lerp_start, lerp, Fixed};
use crate::percentage::Percentage;

verus! {

/// A coordinate in space, in a right-handed system with z pointing up.
#[derive(Clone, Copy, Debug, PartialEq, Eq, Structural)]
pub struct Point3 {
    pub x: Fixed,
    pub y: Fixed,
    pub z: Fixed,
}

/// The largest size of a coordinate for which distances between points can be measured:
/// two to the power 61 billionths.
pub const REACH: i64 = 0x2000_0000_0000_0000;

/// Whether `root` is the square root of `n`, rounded down to a whole number.
pub open spec fn is_floor_sqrt(n: int, root: int) -> bool {
    0 <= root && root * root <= n < (root + 1) * (root + 1)
}

/// The square root of `n`, rounded down to a whole number.
pub open spec fn floor_sqrt(n: int) -> int {
    choose|root: int| is_floor_sqrt(n, root)
}

/// A number has one rounded square root only.
pub proof fn lemma_floor_sqrt_unique(n: int, a: int, b: int)
    requires
        is_floor_sqrt(n, a),
        is_floor_sqrt(n, b),
    ensures
        a == b,
{
    if a < b {
        assert((a + 1) * (a + 1) <= b * b) by (nonlinear_arith)
            requires
                0 <= a,
                a + 1 <= b,
        ;
    } else if b < a {
        assert((b + 1) * (b + 1) <= a * a) by (nonlinear_arith)
            requires
                0 <= b,
                b + 1 <= a,
        ;
    }
}

/// The square root of `n`, rounded down to a whole number.
pub fn integer_sqrt(n: u128) -> (root: u64)
    ensures
        is_floor_sqrt(n as int, root as int),
        root as int == floor_sqrt(n as int),
{
    let mut low: u128 = 0;
    let mut high: u128 = 0x1_0000_0000_0000_0000;
    assert(n < high * high) by (nonlinear_arith)
        requires
            n < 0x1_0000_0000_0000_0000_0000_0000_0000_0000,
            high == 0x1_0000_0000_0000_0000,
    ;
    while high - low > 1
        invariant
            low < high <= 0x1_0000_0000_0000_0000,
            low * low <= n < high * high,
        decreases high - low,
    {
        let middle: u128 = low + (high - low) / 2;
        assert(middle * middle < 0x1_0000_0000_0000_0000_0000_0000_0000_0000) by (nonlinear_arith)
            requires
                0 <= middle < 0x1_0000_0000_0000_0000,
        ;
        if middle * middle <= n {
            low = middle;
        } else {
            high = middle;
        }
    }
    proof {
        lemma_floor_sqrt_unique(n as int, low as int, floor_sqrt(n as int));
    }
    low as u64
}

/// The point that lies `num / den` of the way from `a` to `b`, each coordinate rounded down
/// to a whole step.
pub open spec fn lerp_point(a: Point3, b: Point3, num: int, den: int) -> Point3 {
    Point3 {
        x: Fixed { raw: lerp(a.x.value(), b.x.value(), num, den) as i64 },
        y: Fixed { raw: lerp(a.y.value(), b.y.value(), num, den) as i64 },
        z: Fixed { raw: lerp(a.z.value(), b.z.value(), num, den) as i64 },
    }
}

/// Interpolating between two points starts at the first.
pub proof fn lemma_lerp_point_start(a: Point3, b: Point3, den: int)
    requires
        0 < den,
    ensures
        lerp_point(a, b, 0, den) == a,
{
    lemma_lerp_start(a.x.value(), b.x.value(), den);
    lemma_lerp_start(a.y.value(), b.y.value(), den);
    lemma_lerp_start(a.z.value(), b.z.value(), den);
}

/// Interpolating between two points ends at the second.
pub proof fn lemma_lerp_point_end(a: Point3, b: Point3, den: int)
    requires
        0 < den,
    ensures
        lerp_point(a, b, den, den) == b,
{
    lemma_lerp_end(a.x.value(), b.x.value(), den);
    lemma_lerp_end(a.y.value(), b.y.value(), den);
    lemma_lerp_end(a.z.value(), b.z.value(), den);
}

/// A point between two points within reach is within reach.
pub proof fn lemma_lerp_point_in_reach(a: Point3, b: Point3, num: int, den: int)
    requires
        a.in_reach(),
        b.in_reach(),
        0 < den,
        0 <= num <= den,
    ensures
        lerp_point(a, b, num, den).in_reach(),
{
    lemma_lerp_between(a.x.value(), b.x.value(), num, den);
    lemma_lerp_between(a.y.value(), b.y.value(), num, den);
    lemma_lerp_between(a.z.value(), b.z.value(), num, den);
}

impl Point3 {
    /// Whether no coordinate of the point is larger than `REACH`, in either direction.
    pub open spec fn in_reach(self) -> bool {
        &&& -REACH <= self.x.value() <= REACH
        &&& -REACH <= self.y.value() <= REACH
        &&& -REACH <= self.z.value() <= REACH
    }

    /// Whether no coordinate of the point is larger than `REACH`, in either direction.
    pub fn is_in_reach(&self) -> (b: bool)
        ensures
            b == self.in_reach(),
    {
        -REACH <= self.x.raw && self.x.raw <= REACH && -REACH <= self.y.raw && self.y.raw <= REACH
            && -REACH <= self.z.raw && self.z.raw <= REACH
    }

    /// The point with the given coordinates.
    pub fn new(x: Fixed, y: Fixed, z: Fixed) -> (p: Point3)
        ensures
            p == (Point3 { x, y, z }),
    {
        Point3 { x, y, z }
    }

    /// The origin, which is also the value of a point that was never filled in.
    pub open spec fn origin() -> Point3 {
        Point3 { x: Fixed { raw: 0 }, y: Fixed { raw: 0 }, z: Fixed { raw: 0 } }
    }

    /// Whether this point is the origin.
    pub fn is_origin(&self) -> (b: bool)
        ensures
            b == (*self == Point3::origin()),
    {
        self.x.raw == 0 && self.y.raw == 0 && self.z.raw == 0
    }

    /// The point that lies `index` of the way from `self` to `other`.
    pub fn lerp(self, other: Point3, index: &Percentage) -> (p: Point3)
        ensures
            p == lerp_point(self, other, index.num(), index.den()),
    {
        Point3 {
            x: self.x.lerp(other.x, index),
            y: self.y.lerp(other.y, index),
            z: self.z.lerp(other.z, index),
        }
    }
}

impl Default for Point3 {
    fn default() -> (p: Point3)
        ensures
            p == Point3::origin(),
    {
        Point3 { x: Fixed { raw: 0 }, y: Fixed { raw: 0 }, z: Fixed { raw: 0 } }
    }
}

} // verus!
