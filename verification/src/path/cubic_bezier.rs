//! Cubic Bezier curves.
use vstd::prelude::*;
use vstd::std_specs::cmp::PartialEqSpecImpl;
use crate::fixed::{lemma_lerp_between, lemma_lerp_rounds_down, lerp, rounds_down, weighted};
use crate::path::bezier::{
    classical_quadratic,
    lemma_quadratic_in_range,
    lemma_quadratic_is_classical,
    quadratic,
    quadratic_point,
    quadratic_point_at,
};
use crate::path::Path;
use crate::percentage::Percentage;
use crate::point::{lerp_point, Point3};

verus! {

/// The curve from `start` to `end` that is shaped by two handles.
#[derive(Debug)]
pub struct CubicBezier {
    pub name: String,
    pub start: Point3,
    pub end: Point3,
    pub handle_1: Point3,
    pub handle_2: Point3,
}

/// The point at `num / den` of the curve with the given ends and handles. Each handle gives
/// a quadratic curve between the same two ends; the result lies `num / den` of the way from
/// the point on the second handle's curve to the point on the first handle's.
pub open spec fn cubic_point(
    start: Point3,
    end: Point3,
    handle_1: Point3,
    handle_2: Point3,
    num: int,
    den: int,
) -> Point3 {
    lerp_point(
        quadratic_point(start, handle_2, end, num, den),
        quadratic_point(start, handle_1, end, num, den),
        num,
        den,
    )
}

impl Clone for CubicBezier {
    fn clone(&self) -> (curve: CubicBezier)
        ensures
            curve == *self,
    {
        CubicBezier {
            name: self.name.clone(),
            start: self.start,
            end: self.end,
            handle_1: self.handle_1,
            handle_2: self.handle_2,
        }
    }
}

/// One coordinate of `cubic_point`.
pub open spec fn cubic(start: int, end: int, handle_1: int, handle_2: int, num: int, den: int) -> int {
    lerp(
        quadratic(start, handle_2, end, num, den),
        quadratic(start, handle_1, end, num, den),
        num,
        den,
    )
}

/// `den * den * den` times one coordinate of the point at `num / den` of the curve in
/// closed form: with `t` for `num / den`, the point is
/// `(1 - t) * (1 - t) * start + 2 * (1 - t) * t * ((1 - t) * handle_2 + t * handle_1) + t * t * end`.
pub open spec fn closed_cubic(
    start: int,
    end: int,
    handle_1: int,
    handle_2: int,
    num: int,
    den: int,
) -> int {
    (den - num) * classical_quadratic(start, handle_2, end, num, den) + num * classical_quadratic(
        start,
        handle_1,
        end,
        num,
        den,
    )
}

/// Each coordinate of a point of the curve is that of the closed form, rounded down, give
/// or take less than three steps.
pub proof fn lemma_cubic_is_closed_form(
    start: int,
    end: int,
    handle_1: int,
    handle_2: int,
    num: int,
    den: int,
)
    requires
        0 < den,
        0 <= num <= den,
    ensures
        rounds_down(
            closed_cubic(start, end, handle_1, handle_2, num, den),
            den * den * den,
            cubic(start, end, handle_1, handle_2, num, den),
            3,
        ),
{
    let q2 = quadratic(start, handle_2, end, num, den);
    let q1 = quadratic(start, handle_1, end, num, den);
    let c2 = classical_quadratic(start, handle_2, end, num, den);
    let c1 = classical_quadratic(start, handle_1, end, num, den);
    let r = lerp(q2, q1, num, den);
    let exact_r = weighted(q2, q1, num, den);
    let closed = closed_cubic(start, end, handle_1, handle_2, num, den);
    let u = den - num;
    let dd = den * den;
    lemma_quadratic_is_classical(start, handle_2, end, num, den);
    lemma_quadratic_is_classical(start, handle_1, end, num, den);
    lemma_lerp_rounds_down(q2, q1, num, den);
    assert(0 < dd) by (nonlinear_arith)
        requires
            0 < den,
            dd == den * den,
    ;
    assert(dd * exact_r == u * (dd * q2) + num * (dd * q1)) by (nonlinear_arith)
        requires
            exact_r == u * q2 + num * q1,
    ;
    assert(u * (dd * q2) + num * (dd * q1) <= u * c2 + num * c1) by (nonlinear_arith)
        requires
            0 <= u,
            0 <= num,
            dd * q2 <= c2,
            dd * q1 <= c1,
    ;
    assert(dd * (den * r) <= dd * exact_r) by (nonlinear_arith)
        requires
            0 < dd,
            den * r <= exact_r,
    ;
    assert(den * den * den * r == dd * (den * r)) by (nonlinear_arith)
        requires
            dd == den * den,
    ;
    assert(u * c2 + num * c1 < u * (dd * q2) + num * (dd * q1) + 2 * (den * dd))
        by (nonlinear_arith)
        requires
            0 <= u,
            0 <= num,
            u + num == den,
            0 < den,
            0 < dd,
            c2 < dd * (q2 + 2),
            c1 < dd * (q1 + 2),
    ;
    assert(dd * exact_r < dd * (den * r) + den * dd) by (nonlinear_arith)
        requires
            0 < dd,
            exact_r < den * (r + 1),
    ;
    assert(den * den * den * (r + 3) == dd * (den * r) + 3 * (den * dd)) by (nonlinear_arith)
        requires
            dd == den * den,
    ;
}

/// The coordinates of `cubic_point` are those that `cubic` gives.
pub proof fn lemma_cubic_point_coordinates(
    start: Point3,
    end: Point3,
    handle_1: Point3,
    handle_2: Point3,
    num: int,
    den: int,
)
    requires
        0 < den,
        0 <= num <= den,
    ensures
        cubic_point(start, end, handle_1, handle_2, num, den).x.value() == cubic(
            start.x.value(),
            end.x.value(),
            handle_1.x.value(),
            handle_2.x.value(),
            num,
            den,
        ),
        cubic_point(start, end, handle_1, handle_2, num, den).y.value() == cubic(
            start.y.value(),
            end.y.value(),
            handle_1.y.value(),
            handle_2.y.value(),
            num,
            den,
        ),
        cubic_point(start, end, handle_1, handle_2, num, den).z.value() == cubic(
            start.z.value(),
            end.z.value(),
            handle_1.z.value(),
            handle_2.z.value(),
            num,
            den,
        ),
{
    lemma_cubic_in_range(
        start.x.value(),
        end.x.value(),
        handle_1.x.value(),
        handle_2.x.value(),
        num,
        den,
    );
    lemma_cubic_in_range(
        start.y.value(),
        end.y.value(),
        handle_1.y.value(),
        handle_2.y.value(),
        num,
        den,
    );
    lemma_cubic_in_range(
        start.z.value(),
        end.z.value(),
        handle_1.z.value(),
        handle_2.z.value(),
        num,
        den,
    );
}

/// No step of the construction leaves the range of the numbers that it starts from.
pub proof fn lemma_cubic_in_range(
    start: int,
    end: int,
    handle_1: int,
    handle_2: int,
    num: int,
    den: int,
)
    requires
        0 < den,
        0 <= num <= den,
        i64::MIN <= start <= i64::MAX,
        i64::MIN <= end <= i64::MAX,
        i64::MIN <= handle_1 <= i64::MAX,
        i64::MIN <= handle_2 <= i64::MAX,
    ensures
        i64::MIN <= lerp(start, handle_1, num, den) <= i64::MAX,
        i64::MIN <= lerp(handle_1, end, num, den) <= i64::MAX,
        i64::MIN <= lerp(start, handle_2, num, den) <= i64::MAX,
        i64::MIN <= lerp(handle_2, end, num, den) <= i64::MAX,
        i64::MIN <= quadratic(start, handle_1, end, num, den) <= i64::MAX,
        i64::MIN <= quadratic(start, handle_2, end, num, den) <= i64::MAX,
        i64::MIN <= cubic(start, end, handle_1, handle_2, num, den) <= i64::MAX,
{
    lemma_quadratic_in_range(start, handle_1, end, num, den);
    lemma_quadratic_in_range(start, handle_2, end, num, den);
    lemma_lerp_between(
        quadratic(start, handle_2, end, num, den),
        quadratic(start, handle_1, end, num, den),
        num,
        den,
    );
}

/// Every point of a cubic curve agrees with the closed form of the curve: each of its
/// coordinates is that of the closed form, rounded down, give or take less than three steps.
pub proof fn lemma_cubic_bezier_is_closed_form(curve: CubicBezier, num: int, den: int)
    requires
        0 < den,
        0 <= num <= den,
    ensures
        rounds_down(
            closed_cubic(
                curve.start.x.value(),
                curve.end.x.value(),
                curve.handle_1.x.value(),
                curve.handle_2.x.value(),
                num,
                den,
            ),
            den * den * den,
            curve.point_at_spec(num, den).x.value(),
            3,
        ),
        rounds_down(
            closed_cubic(
                curve.start.y.value(),
                curve.end.y.value(),
                curve.handle_1.y.value(),
                curve.handle_2.y.value(),
                num,
                den,
            ),
            den * den * den,
            curve.point_at_spec(num, den).y.value(),
            3,
        ),
        rounds_down(
            closed_cubic(
                curve.start.z.value(),
                curve.end.z.value(),
                curve.handle_1.z.value(),
                curve.handle_2.z.value(),
                num,
                den,
            ),
            den * den * den,
            curve.point_at_spec(num, den).z.value(),
            3,
        ),
{
    lemma_cubic_point_coordinates(
        curve.start,
        curve.end,
        curve.handle_1,
        curve.handle_2,
        num,
        den,
    );
    lemma_cubic_is_closed_form(
        curve.start.x.value(),
        curve.end.x.value(),
        curve.handle_1.x.value(),
        curve.handle_2.x.value(),
        num,
        den,
    );
    lemma_cubic_is_closed_form(
        curve.start.y.value(),
        curve.end.y.value(),
        curve.handle_1.y.value(),
        curve.handle_2.y.value(),
        num,
        den,
    );
    lemma_cubic_is_closed_form(
        curve.start.z.value(),
        curve.end.z.value(),
        curve.handle_1.z.value(),
        curve.handle_2.z.value(),
        num,
        den,
    );
}

impl PartialEq for CubicBezier {
    fn eq(&self, other: &CubicBezier) -> (b: bool) {
        self.name == other.name && self.start == other.start && self.end == other.end
            && self.handle_1 == other.handle_1 && self.handle_2 == other.handle_2
    }
}

impl PartialEqSpecImpl for CubicBezier {
    open spec fn obeys_eq_spec() -> bool {
        true
    }

    open spec fn eq_spec(&self, other: &CubicBezier) -> bool {
        self.name@ == other.name@ && self.start == other.start && self.end == other.end
            && self.handle_1 == other.handle_1 && self.handle_2 == other.handle_2
    }
}

impl Default for CubicBezier {
    fn default() -> (curve: CubicBezier)
        ensures
            curve.is_default_spec(),
    {
        CubicBezier {
            name: String::new(),
            start: Point3::default(),
            end: Point3::default(),
            handle_1: Point3::default(),
            handle_2: Point3::default(),
        }
    }
}

impl Path for CubicBezier {
    open spec fn point_at_spec(&self, num: int, den: int) -> Point3 {
        cubic_point(self.start, self.end, self.handle_1, self.handle_2, num, den)
    }

    open spec fn name_spec(&self) -> Seq<char> {
        self.name@
    }

    fn point_at(&self, index: &Percentage) -> (p: Point3) {
        let bezier_1 = quadratic_point_at(self.start, self.handle_1, self.end, index);
        let bezier_2 = quadratic_point_at(self.start, self.handle_2, self.end, index);
        bezier_2.lerp(bezier_1, index)
    }

    fn name(&self) -> (n: String) {
        self.name.clone()
    }
}

impl CubicBezier {
    /// A curve that nobody has filled in yet: no name, and every point at the origin.
    pub open spec fn is_default_spec(&self) -> bool {
        &&& self.name@.len() == 0
        &&& self.start == Point3::origin()
        &&& self.end == Point3::origin()
        &&& self.handle_1 == Point3::origin()
        &&& self.handle_2 == Point3::origin()
    }

    /// Whether this curve still holds the values that it had before anyone filled it in.
    pub fn is_default(&self) -> (b: bool)
        ensures
            b == self.is_default_spec(),
    {
        self.name.as_str().is_empty() && self.start.is_origin() && self.end.is_origin()
            && self.handle_1.is_origin() && self.handle_2.is_origin()
    }
}

} // verus!
