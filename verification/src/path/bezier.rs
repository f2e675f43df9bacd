//! Quadratic Bezier curves.
use vstd::prelude::*;
use vstd::std_specs::cmp::PartialEqSpecImpl;
use crate::path::Path;
use crate::percentage::Percentage;
use crate::fixed::{lemma_lerp_between, lemma_lerp_rounds_down, lerp, rounds_down, weighted};
use crate::point::{lerp_point, Point3};

verus! {

/// The quadratic Bezier curve from `start` to `end` that is drawn towards `midpoint`.
#[derive(Debug)]
pub struct Bezier {
    pub name: String,
    pub start: Point3,
    pub midpoint: Point3,
    pub end: Point3,
}

/// The point at `num / den` of the quadratic curve with the given control points: the two
/// legs start-midpoint and midpoint-end are each cut at that fraction, and so is the segment
/// between the two cuts.
pub open spec fn quadratic_point(
    start: Point3,
    midpoint: Point3,
    end: Point3,
    num: int,
    den: int,
) -> Point3 {
    lerp_point(
        lerp_point(start, midpoint, num, den),
        lerp_point(midpoint, end, num, den),
        num,
        den,
    )
}

/// One coordinate of `quadratic_point`.
pub open spec fn quadratic(start: int, midpoint: int, end: int, num: int, den: int) -> int {
    lerp(lerp(start, midpoint, num, den), lerp(midpoint, end, num, den), num, den)
}

/// `den * den` times one coordinate of the point at `num / den` of the quadratic Bezier
/// curve in its classical form: with `t` for `num / den`, the point is
/// `(1 - t) * (1 - t) * start + 2 * (1 - t) * t * midpoint + t * t * end`.
pub open spec fn classical_quadratic(start: int, midpoint: int, end: int, num: int, den: int) -> int {
    (den - num) * (den - num) * start + 2 * (den - num) * num * midpoint + num * num * end
}

/// Each coordinate of a point of the curve is the classical one, rounded down, give or take
/// less than two steps.
pub proof fn lemma_quadratic_is_classical(start: int, midpoint: int, end: int, num: int, den: int)
    requires
        0 < den,
        0 <= num <= den,
    ensures
        rounds_down(
            classical_quadratic(start, midpoint, end, num, den),
            den * den,
            quadratic(start, midpoint, end, num, den),
            2,
        ),
{
    let a = lerp(start, midpoint, num, den);
    let b = lerp(midpoint, end, num, den);
    let r = lerp(a, b, num, den);
    let exact_a = weighted(start, midpoint, num, den);
    let exact_b = weighted(midpoint, end, num, den);
    let exact_r = weighted(a, b, num, den);
    let classical = classical_quadratic(start, midpoint, end, num, den);
    lemma_lerp_rounds_down(start, midpoint, num, den);
    lemma_lerp_rounds_down(midpoint, end, num, den);
    lemma_lerp_rounds_down(a, b, num, den);
    let u = den - num;
    assert(classical == u * exact_a + num * exact_b) by (nonlinear_arith)
        requires
            u == den - num,
            exact_a == u * start + num * midpoint,
            exact_b == u * midpoint + num * end,
            classical == u * u * start + 2 * u * num * midpoint + num * num * end,
    ;
    assert(den * exact_r == u * (den * a) + num * (den * b)) by (nonlinear_arith)
        requires
            exact_r == u * a + num * b,
    ;
    assert(u * (den * a) <= u * exact_a) by (nonlinear_arith)
        requires
            0 <= u,
            den * a <= exact_a,
    ;
    assert(num * (den * b) <= num * exact_b) by (nonlinear_arith)
        requires
            0 <= num,
            den * b <= exact_b,
    ;
    assert(den * (den * r) <= den * exact_r) by (nonlinear_arith)
        requires
            0 < den,
            den * r <= exact_r,
    ;
    assert(den * den * r == den * (den * r)) by (nonlinear_arith);
    assert(u * exact_a + num * exact_b < u * (den * a) + num * (den * b) + den * den)
        by (nonlinear_arith)
        requires
            0 <= u,
            0 <= num,
            u + num == den,
            0 < den,
            exact_a < den * (a + 1),
            exact_b < den * (b + 1),
    ;
    assert(den * exact_r < den * (den * r) + den * den) by (nonlinear_arith)
        requires
            0 < den,
            exact_r < den * (r + 1),
    ;
    assert(den * den * (r + 2) == den * (den * r) + 2 * (den * den)) by (nonlinear_arith);
}

/// The coordinates of `quadratic_point` are those that `quadratic` gives.
pub proof fn lemma_quadratic_point_coordinates(
    start: Point3,
    midpoint: Point3,
    end: Point3,
    num: int,
    den: int,
)
    requires
        0 < den,
        0 <= num <= den,
    ensures
        quadratic_point(start, midpoint, end, num, den).x.value() == quadratic(
            start.x.value(),
            midpoint.x.value(),
            end.x.value(),
            num,
            den,
        ),
        quadratic_point(start, midpoint, end, num, den).y.value() == quadratic(
            start.y.value(),
            midpoint.y.value(),
            end.y.value(),
            num,
            den,
        ),
        quadratic_point(start, midpoint, end, num, den).z.value() == quadratic(
            start.z.value(),
            midpoint.z.value(),
            end.z.value(),
            num,
            den,
        ),
{
    lemma_quadratic_in_range(start.x.value(), midpoint.x.value(), end.x.value(), num, den);
    lemma_quadratic_in_range(start.y.value(), midpoint.y.value(), end.y.value(), num, den);
    lemma_quadratic_in_range(start.z.value(), midpoint.z.value(), end.z.value(), num, den);
}

/// No step of the construction leaves the range of the numbers that it starts from.
pub proof fn lemma_quadratic_in_range(start: int, midpoint: int, end: int, num: int, den: int)
    requires
        0 < den,
        0 <= num <= den,
        i64::MIN <= start <= i64::MAX,
        i64::MIN <= midpoint <= i64::MAX,
        i64::MIN <= end <= i64::MAX,
    ensures
        i64::MIN <= lerp(start, midpoint, num, den) <= i64::MAX,
        i64::MIN <= lerp(midpoint, end, num, den) <= i64::MAX,
        i64::MIN <= quadratic(start, midpoint, end, num, den) <= i64::MAX,
{
    lemma_lerp_between(start, midpoint, num, den);
    lemma_lerp_between(midpoint, end, num, den);
    lemma_lerp_between(
        lerp(start, midpoint, num, den),
        lerp(midpoint, end, num, den),
        num,
        den,
    );
}

/// Every point of a quadratic Bezier curve agrees with the classical form of the curve: each
/// of its coordinates is the classical one, rounded down, give or take less than two steps.
pub proof fn lemma_bezier_is_classical(curve: Bezier, num: int, den: int)
    requires
        0 < den,
        0 <= num <= den,
    ensures
        rounds_down(
            classical_quadratic(
                curve.start.x.value(),
                curve.midpoint.x.value(),
                curve.end.x.value(),
                num,
                den,
            ),
            den * den,
            curve.point_at_spec(num, den).x.value(),
            2,
        ),
        rounds_down(
            classical_quadratic(
                curve.start.y.value(),
                curve.midpoint.y.value(),
                curve.end.y.value(),
                num,
                den,
            ),
            den * den,
            curve.point_at_spec(num, den).y.value(),
            2,
        ),
        rounds_down(
            classical_quadratic(
                curve.start.z.value(),
                curve.midpoint.z.value(),
                curve.end.z.value(),
                num,
                den,
            ),
            den * den,
            curve.point_at_spec(num, den).z.value(),
            2,
        ),
{
    lemma_quadratic_point_coordinates(curve.start, curve.midpoint, curve.end, num, den);
    lemma_quadratic_is_classical(
        curve.start.x.value(),
        curve.midpoint.x.value(),
        curve.end.x.value(),
        num,
        den,
    );
    lemma_quadratic_is_classical(
        curve.start.y.value(),
        curve.midpoint.y.value(),
        curve.end.y.value(),
        num,
        den,
    );
    lemma_quadratic_is_classical(
        curve.start.z.value(),
        curve.midpoint.z.value(),
        curve.end.z.value(),
        num,
        den,
    );
}

/// The curve through the given control points, evaluated at `index`.
pub fn quadratic_point_at(start: Point3, midpoint: Point3, end: Point3, index: &Percentage) -> (p:
    Point3)
    ensures
        p == quadratic_point(start, midpoint, end, index.num(), index.den()),
{
    let start_line_point = midpoint.lerp(end, index);
    let end_line_point = start.lerp(midpoint, index);
    end_line_point.lerp(start_line_point, index)
}

impl Clone for Bezier {
    fn clone(&self) -> (curve: Bezier)
        ensures
            curve == *self,
    {
        Bezier {
            name: self.name.clone(),
            start: self.start,
            midpoint: self.midpoint,
            end: self.end,
        }
    }
}

impl PartialEq for Bezier {
    fn eq(&self, other: &Bezier) -> (b: bool) {
        self.name == other.name && self.start == other.start && self.midpoint == other.midpoint
            && self.end == other.end
    }
}

impl PartialEqSpecImpl for Bezier {
    open spec fn obeys_eq_spec() -> bool {
        true
    }

    open spec fn eq_spec(&self, other: &Bezier) -> bool {
        self.name@ == other.name@ && self.start == other.start && self.midpoint == other.midpoint
            && self.end == other.end
    }
}

impl Default for Bezier {
    fn default() -> (curve: Bezier)
        ensures
            curve.is_default_spec(),
    {
        Bezier {
            name: String::new(),
            start: Point3::default(),
            midpoint: Point3::default(),
            end: Point3::default(),
        }
    }
}

impl Path for Bezier {
    open spec fn point_at_spec(&self, num: int, den: int) -> Point3 {
        quadratic_point(self.start, self.midpoint, self.end, num, den)
    }

    open spec fn name_spec(&self) -> Seq<char> {
        self.name@
    }

    fn point_at(&self, index: &Percentage) -> (p: Point3) {
        quadratic_point_at(self.start, self.midpoint, self.end, index)
    }

    fn name(&self) -> (n: String) {
        self.name.clone()
    }
}

impl Bezier {
    /// A curve that nobody has filled in yet: no name, and every point at the origin.
    pub open spec fn is_default_spec(&self) -> bool {
        &&& self.name@.len() == 0
        &&& self.start == Point3::origin()
        &&& self.midpoint == Point3::origin()
        &&& self.end == Point3::origin()
    }

    /// Makes a curve whose name does not matter.
    pub fn new(start: Point3, midpoint: Point3, end: Point3) -> (curve: Bezier)
        ensures
            curve.name@.len() == 0,
            curve.start == start,
            curve.midpoint == midpoint,
            curve.end == end,
    {
        Bezier { name: String::new(), start, midpoint, end }
    }

    /// Makes a curve with the given name.
    pub fn with_name(name: String, start: Point3, midpoint: Point3, end: Point3) -> (curve: Bezier)
        ensures
            curve.name == name,
            curve.start == start,
            curve.midpoint == midpoint,
            curve.end == end,
    {
        Bezier { name, start, midpoint, end }
    }

    /// Whether this curve still holds the values that it had before anyone filled it in.
    pub fn is_default(&self) -> (b: bool)
        ensures
            b == self.is_default_spec(),
    {
        self.name.as_str().is_empty() && self.start.is_origin() && self.midpoint.is_origin()
            && self.end.is_origin()
    }
}

} // verus!
