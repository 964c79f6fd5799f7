//! Outlines of straight edges only: the square, the triangle, the chevron,
//! the bracket and the cross.
//!
//! Each is laid out in the square of which `origin` is the lower left corner
//! and whose side is the symbol size, given in points and converted to page
//! units.

use vstd::prelude::*;
use crate::error::ConfigurationError;
use crate::path::{
    anchor, lemma_anchors_only, mode_for, paint_mode, points_view, PaintMode, Path, PathPoint,
    PathPointView, PathView, Point, PointView,
};
use crate::units::{
    half, lemma_round_div_nearest, mul_div_round, pt_to_mm, round_div, spec_pt_to_mm,
};

verus! {

/// Why a symbol of the size given is not drawn at `origin`, if it is not:
/// its size is not positive, or so small that it comes to no page unit, or
/// its square reaches beyond the coordinates that an `i64` holds.
pub open spec fn shape_refusal(origin: PointView, size_pt: int) -> Option<ConfigurationError> {
    let d = spec_pt_to_mm(size_pt);
    if d <= 0 {
        Some(ConfigurationError::NonPositiveSize)
    } else if origin.x + d > i64::MAX || origin.y + d > i64::MAX {
        Some(ConfigurationError::Overflow)
    } else {
        None
    }
}

/// The depth of a bracket's two arms: six tenths of its height, rounded to
/// the nearest unit.
pub open spec fn bracket_arm(d: int) -> int {
    round_div(d * 3, 5)
}

/// The four corners of the square, counter-clockwise from `origin`.
pub open spec fn square_outline(origin: PointView, size_pt: int) -> Seq<PathPointView> {
    let d = spec_pt_to_mm(size_pt);
    seq![
        anchor(origin.x, origin.y),
        anchor(origin.x + d, origin.y),
        anchor(origin.x + d, origin.y + d),
        anchor(origin.x, origin.y + d),
    ]
}

/// The triangle that stands on the bottom side of the square, its apex over
/// the middle of that side.
pub open spec fn triangle_outline(origin: PointView, size_pt: int) -> Seq<PathPointView> {
    let d = spec_pt_to_mm(size_pt);
    seq![
        anchor(origin.x, origin.y),
        anchor(origin.x + half(d), origin.y + d),
        anchor(origin.x + d, origin.y),
    ]
}

/// The chevron: two edges from the corners of one side of the square to the
/// middle of the opposite side. One that points left has its tip on the left
/// side.
pub open spec fn chevron_outline(origin: PointView, size_pt: int, points_left: bool) -> Seq<
    PathPointView,
> {
    let d = spec_pt_to_mm(size_pt);
    if points_left {
        seq![
            anchor(origin.x + d, origin.y),
            anchor(origin.x, origin.y + half(d)),
            anchor(origin.x + d, origin.y + d),
        ]
    } else {
        seq![
            anchor(origin.x, origin.y),
            anchor(origin.x + d, origin.y + half(d)),
            anchor(origin.x, origin.y + d),
        ]
    }
}

/// The bracket: a side of the square with an arm at each end. A left bracket
/// stands on the left side and its arms reach right; a right bracket stands
/// on the right side and its arms reach left.
pub open spec fn bracket_outline(origin: PointView, size_pt: int, left: bool) -> Seq<
    PathPointView,
> {
    let d = spec_pt_to_mm(size_pt);
    let arm = bracket_arm(d);
    if left {
        seq![
            anchor(origin.x + arm, origin.y),
            anchor(origin.x, origin.y),
            anchor(origin.x, origin.y + d),
            anchor(origin.x + arm, origin.y + d),
        ]
    } else {
        seq![
            anchor(origin.x + d - arm, origin.y),
            anchor(origin.x + d, origin.y),
            anchor(origin.x + d, origin.y + d),
            anchor(origin.x + d - arm, origin.y + d),
        ]
    }
}

/// The rising diagonal of the square, from `origin` to the opposite corner.
pub open spec fn rising_diagonal(origin: PointView, size_pt: int) -> Seq<PathPointView> {
    let d = spec_pt_to_mm(size_pt);
    seq![anchor(origin.x, origin.y), anchor(origin.x + d, origin.y + d)]
}

/// The falling diagonal of the square, from the lower right corner to the
/// upper left.
pub open spec fn falling_diagonal(origin: PointView, size_pt: int) -> Seq<PathPointView> {
    let d = spec_pt_to_mm(size_pt);
    seq![anchor(origin.x + d, origin.y), anchor(origin.x, origin.y + d)]
}

/// The arm of a bracket is no deeper than the bracket is high.
pub proof fn lemma_bracket_arm_within(d: int)
    requires
        d >= 0,
    ensures
        0 <= bracket_arm(d) <= d,
{
    lemma_round_div_nearest(d * 3, 5);
}

/// The side of a symbol's square with its right and top coordinates.
struct SymbolBox {
    side: i64,
    right: i64,
    top: i64,
}

/// Converts the size and places the symbol's square, or says why not.
fn symbol_box(origin: Point, size_pt: i64) -> (r: Result<SymbolBox, ConfigurationError>)
    ensures
        match shape_refusal(origin@, size_pt as int) {
            Some(e) => r == Err::<SymbolBox, ConfigurationError>(e),
            None => r matches Ok(b) && b.side == spec_pt_to_mm(size_pt as int) && b.side > 0
                && b.right == origin.x + b.side && b.top == origin.y + b.side,
        },
{
    let side = pt_to_mm(size_pt);
    if side <= 0 {
        return Err(ConfigurationError::NonPositiveSize);
    }
    match (origin.x.checked_add(side), origin.y.checked_add(side)) {
        (Some(right), Some(top)) => Ok(SymbolBox { side, right, top }),
        _ => Err(ConfigurationError::Overflow),
    }
}

/// The outline of a square, closed; filled and stroked, or stroked only.
pub fn square(origin: Point, size_pt: i64, filled: bool) -> (r: Result<Path, ConfigurationError>)
    ensures
        match shape_refusal(origin@, size_pt as int) {
            Some(e) => r == Err::<Path, ConfigurationError>(e),
            None => r is Ok && r->Ok_0@ == (PathView {
                points: square_outline(origin@, size_pt as int),
                closed: true,
                mode: paint_mode(filled),
            }),
        },
        r is Ok ==> r->Ok_0@.well_formed(),
{
    let b = match symbol_box(origin, size_pt) {
        Ok(b) => b,
        Err(e) => {
            return Err(e);
        },
    };
    let mut points: Vec<PathPoint> = Vec::new();
    points.push(PathPoint::anchor(origin.x, origin.y));
    points.push(PathPoint::anchor(b.right, origin.y));
    points.push(PathPoint::anchor(b.right, b.top));
    points.push(PathPoint::anchor(origin.x, b.top));
    assert(points_view(points@) =~= square_outline(origin@, size_pt as int));
    proof {
        lemma_anchors_only(square_outline(origin@, size_pt as int), 0);
    }
    Ok(Path { points, closed: true, mode: mode_for(filled) })
}

/// The outline of a triangle, closed; filled and stroked, or stroked only.
pub fn triangle(origin: Point, size_pt: i64, filled: bool) -> (r: Result<
    Path,
    ConfigurationError,
>)
    ensures
        match shape_refusal(origin@, size_pt as int) {
            Some(e) => r == Err::<Path, ConfigurationError>(e),
            None => r is Ok && r->Ok_0@ == (PathView {
                points: triangle_outline(origin@, size_pt as int),
                closed: true,
                mode: paint_mode(filled),
            }),
        },
        r is Ok ==> r->Ok_0@.well_formed(),
{
    let b = match symbol_box(origin, size_pt) {
        Ok(b) => b,
        Err(e) => {
            return Err(e);
        },
    };
    let mut points: Vec<PathPoint> = Vec::new();
    points.push(PathPoint::anchor(origin.x, origin.y));
    points.push(PathPoint::anchor(origin.x + b.side / 2, b.top));
    points.push(PathPoint::anchor(b.right, origin.y));
    assert(points_view(points@) =~= triangle_outline(origin@, size_pt as int));
    proof {
        lemma_anchors_only(triangle_outline(origin@, size_pt as int), 0);
    }
    Ok(Path { points, closed: true, mode: mode_for(filled) })
}

/// The outline of a chevron. Filled, it is closed, filled and stroked;
/// otherwise it is the open stroke of its two edges.
pub fn chevron(origin: Point, size_pt: i64, points_left: bool, filled: bool) -> (r: Result<
    Path,
    ConfigurationError,
>)
    ensures
        match shape_refusal(origin@, size_pt as int) {
            Some(e) => r == Err::<Path, ConfigurationError>(e),
            None => r is Ok && r->Ok_0@ == (PathView {
                points: chevron_outline(origin@, size_pt as int, points_left),
                closed: filled,
                mode: paint_mode(filled),
            }),
        },
        r is Ok ==> r->Ok_0@.well_formed(),
{
    let b = match symbol_box(origin, size_pt) {
        Ok(b) => b,
        Err(e) => {
            return Err(e);
        },
    };
    let middle = origin.y + b.side / 2;
    let mut points: Vec<PathPoint> = Vec::new();
    if points_left {
        points.push(PathPoint::anchor(b.right, origin.y));
        points.push(PathPoint::anchor(origin.x, middle));
        points.push(PathPoint::anchor(b.right, b.top));
    } else {
        points.push(PathPoint::anchor(origin.x, origin.y));
        points.push(PathPoint::anchor(b.right, middle));
        points.push(PathPoint::anchor(origin.x, b.top));
    }
    assert(points_view(points@) =~= chevron_outline(origin@, size_pt as int, points_left));
    proof {
        lemma_anchors_only(chevron_outline(origin@, size_pt as int, points_left), 0);
    }
    Ok(Path { points, closed: filled, mode: mode_for(filled) })
}

/// The open stroke of a bracket.
pub fn bracket(origin: Point, size_pt: i64, left: bool) -> (r: Result<Path, ConfigurationError>)
    ensures
        match shape_refusal(origin@, size_pt as int) {
            Some(e) => r == Err::<Path, ConfigurationError>(e),
            None => r is Ok && r->Ok_0@ == (PathView {
                points: bracket_outline(origin@, size_pt as int, left),
                closed: false,
                mode: PaintMode::Stroke,
            }),
        },
        r is Ok ==> r->Ok_0@.well_formed(),
{
    let b = match symbol_box(origin, size_pt) {
        Ok(b) => b,
        Err(e) => {
            return Err(e);
        },
    };
    proof {
        lemma_bracket_arm_within(b.side as int);
    }
    let arm = mul_div_round(b.side, 3, 5) as i64;
    let mut points: Vec<PathPoint> = Vec::new();
    if left {
        points.push(PathPoint::anchor(origin.x + arm, origin.y));
        points.push(PathPoint::anchor(origin.x, origin.y));
        points.push(PathPoint::anchor(origin.x, b.top));
        points.push(PathPoint::anchor(origin.x + arm, b.top));
    } else {
        points.push(PathPoint::anchor(b.right - arm, origin.y));
        points.push(PathPoint::anchor(b.right, origin.y));
        points.push(PathPoint::anchor(b.right, b.top));
        points.push(PathPoint::anchor(b.right - arm, b.top));
    }
    assert(points_view(points@) =~= bracket_outline(origin@, size_pt as int, left));
    proof {
        lemma_anchors_only(bracket_outline(origin@, size_pt as int, left), 0);
    }
    Ok(Path { points, closed: false, mode: PaintMode::Stroke })
}

/// The two open strokes of a cross: the rising diagonal of the square, then
/// the falling one.
pub fn cross(origin: Point, size_pt: i64) -> (r: Result<(Path, Path), ConfigurationError>)
    ensures
        match shape_refusal(origin@, size_pt as int) {
            Some(e) => r == Err::<(Path, Path), ConfigurationError>(e),
            None => r is Ok && r->Ok_0.0@ == (PathView {
                points: rising_diagonal(origin@, size_pt as int),
                closed: false,
                mode: PaintMode::Stroke,
            }) && r->Ok_0.1@ == (PathView {
                points: falling_diagonal(origin@, size_pt as int),
                closed: false,
                mode: PaintMode::Stroke,
            }),
        },
        r is Ok ==> r->Ok_0.0@.well_formed() && r->Ok_0.1@.well_formed(),
{
    let b = match symbol_box(origin, size_pt) {
        Ok(b) => b,
        Err(e) => {
            return Err(e);
        },
    };
    let mut rising: Vec<PathPoint> = Vec::new();
    rising.push(PathPoint::anchor(origin.x, origin.y));
    rising.push(PathPoint::anchor(b.right, b.top));
    let mut falling: Vec<PathPoint> = Vec::new();
    falling.push(PathPoint::anchor(b.right, origin.y));
    falling.push(PathPoint::anchor(origin.x, b.top));
    assert(points_view(rising@) =~= rising_diagonal(origin@, size_pt as int));
    assert(points_view(falling@) =~= falling_diagonal(origin@, size_pt as int));
    proof {
        lemma_anchors_only(rising_diagonal(origin@, size_pt as int), 0);
        lemma_anchors_only(falling_diagonal(origin@, size_pt as int), 0);
    }
    Ok(
        (
            Path { points: rising, closed: false, mode: PaintMode::Stroke },
            Path { points: falling, closed: false, mode: PaintMode::Stroke },
        ),
    )
}

} // verus!
