//! Straight lines.
use vstd::prelude::*;
use vstd::std_specs::cmp::PartialEqSpecImpl;
use crate::path::Path;
use crate::percentage::Percentage;
use crate::fixed::{lemma_lerp_between, lemma_lerp_rounds_down, rounds_down, weighted};
use crate::point::{lerp_point, Point3};

verus! {

/// The straight line from `start` to `end`. The two may coincide.
#[derive(Debug)]
pub struct Line {
    pub name: String,
    pub start: Point3,
    pub end: Point3,
}

impl Clone for Line {
    fn clone(&self) -> (line: Line)
        ensures
            line == *self,
    {
        Line { name: self.name.clone(), start: self.start, end: self.end }
    }
}

impl PartialEq for Line {
    fn eq(&self, other: &Line) -> (b: bool) {
        self.name == other.name && self.start == other.start && self.end == other.end
    }
}

impl PartialEqSpecImpl for Line {
    open spec fn obeys_eq_spec() -> bool {
        true
    }

    open spec fn eq_spec(&self, other: &Line) -> bool {
        self.name@ == other.name@ && self.start == other.start && self.end == other.end
    }
}

/// Every point of a line is the exact point between its two ends, each coordinate rounded
/// down to a whole step.
pub proof fn lemma_line_is_exact(line: Line, num: int, den: int)
    requires
        0 < den,
        0 <= num <= den,
    ensures
        rounds_down(
            weighted(line.start.x.value(), line.end.x.value(), num, den),
            den,
            line.point_at_spec(num, den).x.value(),
            1,
        ),
        rounds_down(
            weighted(line.start.y.value(), line.end.y.value(), num, den),
            den,
            line.point_at_spec(num, den).y.value(),
            1,
        ),
        rounds_down(
            weighted(line.start.z.value(), line.end.z.value(), num, den),
            den,
            line.point_at_spec(num, den).z.value(),
            1,
        ),
{
    lemma_lerp_between(line.start.x.value(), line.end.x.value(), num, den);
    lemma_lerp_between(line.start.y.value(), line.end.y.value(), num, den);
    lemma_lerp_between(line.start.z.value(), line.end.z.value(), num, den);
    lemma_lerp_rounds_down(line.start.x.value(), line.end.x.value(), num, den);
    lemma_lerp_rounds_down(line.start.y.value(), line.end.y.value(), num, den);
    lemma_lerp_rounds_down(line.start.z.value(), line.end.z.value(), num, den);
}

impl Default for Line {
    fn default() -> (line: Line)
        ensures
            line.is_default_spec(),
    {
        Line { name: String::new(), start: Point3::default(), end: Point3::default() }
    }
}

impl Path for Line {
    open spec fn point_at_spec(&self, num: int, den: int) -> Point3 {
        lerp_point(self.start, self.end, num, den)
    }

    open spec fn name_spec(&self) -> Seq<char> {
        self.name@
    }

    fn point_at(&self, index: &Percentage) -> (p: Point3) {
        self.start.lerp(self.end, index)
    }

    fn name(&self) -> (n: String) {
        self.name.clone()
    }
}

impl Line {
    /// A line that nobody has filled in yet: no name, and both ends at the origin.
    pub open spec fn is_default_spec(&self) -> bool {
        self.name@.len() == 0 && self.start == Point3::origin() && self.end == Point3::origin()
    }

    /// Makes a line whose name does not matter.
    pub fn new(start: Point3, end: Point3) -> (line: Line)
        ensures
            line.name@.len() == 0,
            line.start == start,
            line.end == end,
    {
        Line { name: String::new(), start, end }
    }

    /// Whether this line still holds the values that it had before anyone filled it in.
    pub fn is_default(&self) -> (b: bool)
        ensures
            b == self.is_default_spec(),
    {
        self.name.as_str().is_empty() && self.start.is_origin() && self.end.is_origin()
    }
}

} // verus!
