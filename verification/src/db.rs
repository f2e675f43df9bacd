//! The rules of the store of lights and paths: what it must not accept, and the order in
//! which it hands out its paths.
use vstd::prelude::*;
use crate::light::Light;
use crate::path::bezier::Bezier;
use crate::path::cubic_bezier::CubicBezier;
use crate::path::line::Line;
use crate::path::PathEnum;

verus! {

/// Why the store does not accept a record.
#[derive(Clone, Copy, Debug, PartialEq, Eq, Structural)]
pub enum StoreError {
    /// The light was never filled in.
    LightDefault,
    /// The line was never filled in.
    LineDefault,
    /// The line has no name.
    LineUnnamed,
    /// The quadratic curve was never filled in.
    BezierDefault,
    /// The cubic curve was never filled in.
    CubicBezierDefault,
}

impl StoreError {
    /// The sentence that tells the user what is wrong.
    pub fn message(&self) -> (text: &'static str)
        ensures
            text == match *self {
                StoreError::LightDefault => "Light has default values",
                StoreError::LineDefault => "Line has default values",
                StoreError::LineUnnamed => "Line has no name",
                StoreError::BezierDefault => "Bezier curve has default values",
                StoreError::CubicBezierDefault => "Cubic bezier curve has default values",
            },
    {
        match self {
            StoreError::LightDefault => "Light has default values",
            StoreError::LineDefault => "Line has default values",
            StoreError::LineUnnamed => "Line has no name",
            StoreError::BezierDefault => "Bezier curve has default values",
            StoreError::CubicBezierDefault => "Cubic bezier curve has default values",
        }
    }
}

/// Whether the store may accept `light`: every light but one that was never filled in.
pub fn check_light(light: &Light) -> (checked: Result<(), StoreError>)
    ensures
        checked == if light.is_default_spec() {
            Err::<(), StoreError>(StoreError::LightDefault)
        } else {
            Ok(())
        },
{
    if light.is_default() {
        return Err(StoreError::LightDefault);
    }
    Ok(())
}

/// Whether the store may accept `line`: it must have been filled in, and have a name.
pub fn check_line(line: &Line) -> (checked: Result<(), StoreError>)
    ensures
        checked == if line.is_default_spec() {
            Err::<(), StoreError>(StoreError::LineDefault)
        } else if line.name@.len() == 0 {
            Err(StoreError::LineUnnamed)
        } else {
            Ok(())
        },
{
    if line.is_default() {
        return Err(StoreError::LineDefault);
    }
    if line.name.as_str().is_empty() {
        return Err(StoreError::LineUnnamed);
    }
    Ok(())
}

/// Whether the store may accept `curve`: every curve but one that was never filled in.
pub fn check_bezier(curve: &Bezier) -> (checked: Result<(), StoreError>)
    ensures
        checked == if curve.is_default_spec() {
            Err::<(), StoreError>(StoreError::BezierDefault)
        } else {
            Ok(())
        },
{
    if curve.is_default() {
        return Err(StoreError::BezierDefault);
    }
    Ok(())
}

/// Whether the store may accept `curve`: every curve but one that was never filled in.
pub fn check_cubic_bezier(curve: &CubicBezier) -> (checked: Result<(), StoreError>)
    ensures
        checked == if curve.is_default_spec() {
            Err::<(), StoreError>(StoreError::CubicBezierDefault)
        } else {
            Ok(())
        },
{
    if curve.is_default() {
        return Err(StoreError::CubicBezierDefault);
    }
    Ok(())
}

/// The paths of the store in the order in which they are offered.
pub open spec fn paths_of(
    lines: Seq<Line>,
    beziers: Seq<Bezier>,
    cubic_beziers: Seq<CubicBezier>,
) -> Seq<PathEnum> {
    lines.map_values(|line: Line| PathEnum::Line(line)) + beziers.map_values(
        |curve: Bezier| PathEnum::Bezier(curve),
    ) + cubic_beziers.map_values(|curve: CubicBezier| PathEnum::CubicBezier(curve))
}

/// All the paths of the store in one list: the lines first, then the quadratic curves,
/// then the cubic ones, each kind in the order in which it was read.
pub fn get_paths(lines: Vec<Line>, beziers: Vec<Bezier>, cubic_beziers: Vec<CubicBezier>) -> (paths:
    Vec<PathEnum>)
    ensures
        paths@ == paths_of(lines@, beziers@, cubic_beziers@),
{
    let ghost all_lines = lines@;
    let ghost all_beziers = beziers@;
    let ghost all_cubic = cubic_beziers@;
    let mut out_vec: Vec<PathEnum> = Vec::new();
    for line in it: lines
        invariant
            it.seq() == all_lines,
            out_vec@ =~= all_lines.subrange(0, it.index() as int).map_values(
                |line: Line| PathEnum::Line(line),
            ),
    {
        out_vec.push(PathEnum::Line(line));
    }
    let ghost first = out_vec@;
    for curve in it: beziers
        invariant
            it.seq() == all_beziers,
            out_vec@ =~= first + all_beziers.subrange(0, it.index() as int).map_values(
                |curve: Bezier| PathEnum::Bezier(curve),
            ),
    {
        out_vec.push(PathEnum::Bezier(curve));
    }
    let ghost second = out_vec@;
    for curve in it: cubic_beziers
        invariant
            it.seq() == all_cubic,
            out_vec@ =~= second + all_cubic.subrange(0, it.index() as int).map_values(
                |curve: CubicBezier| PathEnum::CubicBezier(curve),
            ),
    {
        out_vec.push(PathEnum::CubicBezier(curve));
    }
    out_vec
}

} // verus!
