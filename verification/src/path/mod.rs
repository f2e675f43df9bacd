//! Spatial paths that a move can follow.
pub mod bezier;
pub mod cubic_bezier;
pub mod line;

use vstd::prelude::*;
use vstd::std_specs::cmp::PartialEqSpec;
use crate::path::bezier::{quadratic_point, Bezier};
use crate::path::cubic_bezier::CubicBezier;
use crate::path::line::Line;
use crate::percentage::Percentage;
use crate::point::{lemma_lerp_point_end, lemma_lerp_point_in_reach, lemma_lerp_point_start, lerp_point, Point3};

verus! {

/// A curve in space that can be evaluated at any position between its start and its end.
pub trait Path {
    /// The point of the curve at the fraction `num / den` of its length.
    spec fn point_at_spec(&self, num: int, den: int) -> Point3;

    /// The display label of the curve.
    spec fn name_spec(&self) -> Seq<char>;

    /// Calculates the point that lies `index` of the way along this path.
    fn point_at(&self, index: &Percentage) -> (p: Point3)
        ensures
            p == self.point_at_spec(index.num(), index.den()),
    ;

    /// The display label of this path. It plays no part in any calculation.
    fn name(&self) -> (n: String)
        ensures
            n@ == self.name_spec(),
    ;
}

/// Any of the kinds of path that a move can follow.
#[derive(Debug)]
pub enum PathEnum {
    Line(Line),
    Bezier(Bezier),
    CubicBezier(CubicBezier),
}

impl Clone for PathEnum {
    fn clone(&self) -> (path: PathEnum)
        ensures
            path == *self,
    {
        match self {
            PathEnum::Line(line) => PathEnum::Line(line.clone()),
            PathEnum::Bezier(curve) => PathEnum::Bezier(curve.clone()),
            PathEnum::CubicBezier(curve) => PathEnum::CubicBezier(curve.clone()),
        }
    }
}

impl PartialEq for PathEnum {
    fn eq(&self, other: &PathEnum) -> (b: bool) {
        match (self, other) {
            (PathEnum::Line(a), PathEnum::Line(b)) => a == b,
            (PathEnum::Bezier(a), PathEnum::Bezier(b)) => a == b,
            (PathEnum::CubicBezier(a), PathEnum::CubicBezier(b)) => a == b,
            _ => false,
        }
    }
}

impl vstd::std_specs::cmp::PartialEqSpecImpl for PathEnum {
    open spec fn obeys_eq_spec() -> bool {
        true
    }

    open spec fn eq_spec(&self, other: &PathEnum) -> bool {
        match (self, other) {
            (PathEnum::Line(a), PathEnum::Line(b)) => PartialEqSpec::eq_spec(a, b),
            (PathEnum::Bezier(a), PathEnum::Bezier(b)) => PartialEqSpec::eq_spec(a, b),
            (PathEnum::CubicBezier(a), PathEnum::CubicBezier(b)) => PartialEqSpec::eq_spec(a, b),
            _ => false,
        }
    }
}

impl Path for PathEnum {
    open spec fn point_at_spec(&self, num: int, den: int) -> Point3 {
        match self {
            PathEnum::Line(line) => line.point_at_spec(num, den),
            PathEnum::Bezier(curve) => curve.point_at_spec(num, den),
            PathEnum::CubicBezier(curve) => curve.point_at_spec(num, den),
        }
    }

    open spec fn name_spec(&self) -> Seq<char> {
        match self {
            PathEnum::Line(line) => line.name_spec(),
            PathEnum::Bezier(curve) => curve.name_spec(),
            PathEnum::CubicBezier(curve) => curve.name_spec(),
        }
    }

    fn point_at(&self, index: &Percentage) -> (p: Point3) {
        match self {
            PathEnum::Line(line) => line.point_at(index),
            PathEnum::Bezier(curve) => curve.point_at(index),
            PathEnum::CubicBezier(curve) => curve.point_at(index),
        }
    }

    fn name(&self) -> (n: String) {
        match self {
            PathEnum::Line(line) => line.name(),
            PathEnum::Bezier(curve) => curve.name(),
            PathEnum::CubicBezier(curve) => curve.name(),
        }
    }
}

impl PathEnum {
    /// The point at which the path begins.
    pub open spec fn start(&self) -> Point3 {
        match self {
            PathEnum::Line(line) => line.start,
            PathEnum::Bezier(curve) => curve.start,
            PathEnum::CubicBezier(curve) => curve.start,
        }
    }

    /// The point at which the path ends.
    pub open spec fn end(&self) -> Point3 {
        match self {
            PathEnum::Line(line) => line.end,
            PathEnum::Bezier(curve) => curve.end,
            PathEnum::CubicBezier(curve) => curve.end,
        }
    }

    /// Whether every point that defines the path is within reach.
    pub open spec fn in_reach(&self) -> bool {
        match self {
            PathEnum::Line(line) => line.start.in_reach() && line.end.in_reach(),
            PathEnum::Bezier(curve) => curve.start.in_reach() && curve.midpoint.in_reach()
                && curve.end.in_reach(),
            PathEnum::CubicBezier(curve) => curve.start.in_reach() && curve.end.in_reach()
                && curve.handle_1.in_reach() && curve.handle_2.in_reach(),
        }
    }

    /// Whether every point that defines the path is within reach.
    pub fn is_in_reach(&self) -> (b: bool)
        ensures
            b == self.in_reach(),
    {
        match self {
            PathEnum::Line(line) => line.start.is_in_reach() && line.end.is_in_reach(),
            PathEnum::Bezier(curve) => curve.start.is_in_reach() && curve.midpoint.is_in_reach()
                && curve.end.is_in_reach(),
            PathEnum::CubicBezier(curve) => curve.start.is_in_reach() && curve.end.is_in_reach()
                && curve.handle_1.is_in_reach() && curve.handle_2.is_in_reach(),
        }
    }
}

/// Every point of a path within reach is within reach.
pub proof fn lemma_path_stays_in_reach(path: PathEnum, num: int, den: int)
    requires
        path.in_reach(),
        0 < den,
        0 <= num <= den,
    ensures
        path.point_at_spec(num, den).in_reach(),
{
    match path {
        PathEnum::Line(line) => {
            lemma_lerp_point_in_reach(line.start, line.end, num, den);
        },
        PathEnum::Bezier(curve) => {
            lemma_quadratic_in_reach(curve.start, curve.midpoint, curve.end, num, den);
        },
        PathEnum::CubicBezier(curve) => {
            lemma_quadratic_in_reach(curve.start, curve.handle_1, curve.end, num, den);
            lemma_quadratic_in_reach(curve.start, curve.handle_2, curve.end, num, den);
            lemma_lerp_point_in_reach(
                quadratic_point(curve.start, curve.handle_2, curve.end, num, den),
                quadratic_point(curve.start, curve.handle_1, curve.end, num, den),
                num,
                den,
            );
        },
    }
}

/// Every point of a quadratic curve whose control points are within reach is within reach.
pub proof fn lemma_quadratic_in_reach(
    start: Point3,
    midpoint: Point3,
    end: Point3,
    num: int,
    den: int,
)
    requires
        start.in_reach(),
        midpoint.in_reach(),
        end.in_reach(),
        0 < den,
        0 <= num <= den,
    ensures
        quadratic_point(start, midpoint, end, num, den).in_reach(),
{
    lemma_lerp_point_in_reach(start, midpoint, num, den);
    lemma_lerp_point_in_reach(midpoint, end, num, den);
    lemma_lerp_point_in_reach(
        lerp_point(start, midpoint, num, den),
        lerp_point(midpoint, end, num, den),
        num,
        den,
    );
}

/// Every path, evaluated at position zero, gives exactly its start.
pub proof fn lemma_path_begins_at_start(path: PathEnum, den: int)
    requires
        0 < den,
    ensures
        path.point_at_spec(0, den) == path.start(),
{
    match path {
        PathEnum::Line(line) => {
            lemma_lerp_point_start(line.start, line.end, den);
        },
        PathEnum::Bezier(curve) => {
            lemma_quadratic_start(curve.start, curve.midpoint, curve.end, den);
        },
        PathEnum::CubicBezier(curve) => {
            lemma_quadratic_start(curve.start, curve.handle_1, curve.end, den);
            lemma_quadratic_start(curve.start, curve.handle_2, curve.end, den);
            lemma_lerp_point_start(curve.start, curve.start, den);
        },
    }
}

/// Every path, evaluated at position one, gives exactly its end.
pub proof fn lemma_path_finishes_at_end(path: PathEnum, den: int)
    requires
        0 < den,
    ensures
        path.point_at_spec(den, den) == path.end(),
{
    match path {
        PathEnum::Line(line) => {
            lemma_lerp_point_end(line.start, line.end, den);
        },
        PathEnum::Bezier(curve) => {
            lemma_quadratic_end(curve.start, curve.midpoint, curve.end, den);
        },
        PathEnum::CubicBezier(curve) => {
            lemma_quadratic_end(curve.start, curve.handle_1, curve.end, den);
            lemma_quadratic_end(curve.start, curve.handle_2, curve.end, den);
            lemma_lerp_point_end(curve.end, curve.end, den);
        },
    }
}

/// A quadratic curve begins at its first control point.
pub proof fn lemma_quadratic_start(start: Point3, midpoint: Point3, end: Point3, den: int)
    requires
        0 < den,
    ensures
        quadratic_point(start, midpoint, end, 0, den) == start,
{
    lemma_lerp_point_start(start, midpoint, den);
    lemma_lerp_point_start(midpoint, end, den);
    lemma_lerp_point_start(start, midpoint, den);
}

/// A quadratic curve finishes at its last control point.
pub proof fn lemma_quadratic_end(start: Point3, midpoint: Point3, end: Point3, den: int)
    requires
        0 < den,
    ensures
        quadratic_point(start, midpoint, end, den, den) == end,
{
    lemma_lerp_point_end(start, midpoint, den);
    lemma_lerp_point_end(midpoint, end, den);
    lemma_lerp_point_end(midpoint, end, den);
}

} // verus!
