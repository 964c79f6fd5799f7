//! Outlines with rounded parts: the rounded rectangle, the capsule and the
//! circle, each built from straight edges and quarter circles.

use vstd::prelude::*;
use crate::arc::{
    lemma_handle_within_radius, quarter_arc, quarter_arc_points, quarter_arc_refusal,
    spec_arc_handle, Quadrant,
};
use crate::error::ConfigurationError;
use crate::units::half;
use crate::path::{
    all_within, anchor, anchors_touch, control, curves_complete_from, is_bounding_box,
    mode_for, paint_mode, points_view, PaintMode, Path, PathPoint, PathPointView, PathView,
    Point, PointView,
};

verus! {

/// The point `(x, y)`.
pub open spec fn at(x: int, y: int) -> PointView {
    PointView { x, y }
}

/// The points of the rectangle with its lower left corner at `origin`, of
/// the width and height given, its corners rounded with the radius given.
///
/// The outline starts on the bottom edge and runs counter-clockwise. With a
/// radius of zero it is the four corners; otherwise each edge is followed by
/// the quarter circle into the next, and the last curve ends where the
/// outline began.
pub open spec fn rounded_rect_outline(origin: PointView, w: int, h: int, r: int) -> Seq<
    PathPointView,
> {
    let x0 = origin.x;
    let y0 = origin.y;
    if r == 0 {
        seq![anchor(x0, y0), anchor(x0 + w, y0), anchor(x0 + w, y0 + h), anchor(x0, y0 + h)]
    } else {
        seq![anchor(x0 + r, y0), anchor(x0 + w - r, y0)] + quarter_arc_points(
            at(x0 + w - r, y0),
            at(x0 + w, y0 + r),
            r,
            Quadrant::BottomRight,
        ) + seq![anchor(x0 + w, y0 + h - r)] + quarter_arc_points(
            at(x0 + w, y0 + h - r),
            at(x0 + w - r, y0 + h),
            r,
            Quadrant::TopRight,
        ) + seq![anchor(x0 + r, y0 + h)] + quarter_arc_points(
            at(x0 + r, y0 + h),
            at(x0, y0 + h - r),
            r,
            Quadrant::TopLeft,
        ) + seq![anchor(x0, y0 + r)] + quarter_arc_points(
            at(x0, y0 + r),
            at(x0 + r, y0),
            r,
            Quadrant::BottomLeft,
        )
    }
}

/// Why [`rounded_rect`] gives no outline for its arguments, if it gives none.
pub open spec fn rounded_rect_refusal(origin: PointView, w: int, h: int, r: int) -> Option<
    ConfigurationError,
> {
    if w <= 0 || h <= 0 {
        Some(ConfigurationError::NonPositiveSize)
    } else if r < 0 {
        Some(ConfigurationError::NegativeRadius)
    } else if 2 * r > w || 2 * r > h {
        Some(ConfigurationError::RadiusTooLarge)
    } else if origin.x + w > i64::MAX || origin.y + h > i64::MAX {
        Some(ConfigurationError::Overflow)
    } else {
        None
    }
}

/// A quarter circle whose end points lie in a rectangle, and whose radius
/// does not reach beyond it along the tangents, lies in that rectangle with
/// its control points.
pub proof fn lemma_arc_within(
    start: PointView,
    end: PointView,
    radius: int,
    quadrant: Quadrant,
    left: int,
    bottom: int,
    right: int,
    top: int,
)
    requires
        radius >= 0,
        left <= start.x <= right,
        bottom <= start.y <= top,
        left <= end.x <= right,
        bottom <= end.y <= top,
        match quadrant {
            Quadrant::BottomRight => start.x + radius <= right && bottom <= end.y - radius,
            Quadrant::TopRight => start.y + radius <= top && end.x + radius <= right,
            Quadrant::TopLeft => left <= start.x - radius && end.y + radius <= top,
            Quadrant::BottomLeft => bottom <= start.y - radius && left <= end.x - radius,
        },
    ensures
        all_within(quarter_arc_points(start, end, radius, quadrant), left, bottom, right, top),
        i64::MIN <= left && right <= i64::MAX && i64::MIN <= bottom && top <= i64::MAX
            ==> quarter_arc_refusal(start, end, radius, quadrant) is None,
{
    lemma_handle_within_radius(radius);
    let arc = quarter_arc_points(start, end, radius, quadrant);
    assert(arc.len() == 3);
    assert forall|i: int| 0 <= i < arc.len() implies left <= (#[trigger] arc[i]).point.x <= right
        && bottom <= arc[i].point.y <= top by {
        if i == 0 {
        } else if i == 1 {
        } else {
        }
    }
}

/// Appends a quarter circle to `points`, whose last point is the anchor
/// `start`.
fn extend_with_arc(
    points: &mut Vec<PathPoint>,
    start: Point,
    end: Point,
    radius: i64,
    quadrant: Quadrant,
)
    requires
        quarter_arc_refusal(start@, end@, radius as int, quadrant) is None,
    ensures
        points_view(final(points)@) == points_view(old(points)@) + quarter_arc_points(
            start@,
            end@,
            radius as int,
            quadrant,
        ),
{
    match quarter_arc(start, end, radius, quadrant) {
        Ok(mut arc) => {
            points.append(&mut arc);
            assert(points_view(points@) =~= points_view(old(points)@) + quarter_arc_points(
                start@,
                end@,
                radius as int,
                quadrant,
            ));
        },
        Err(_) => {
            assert(false);
        },
    }
}

/// Appends an anchor to `points`.
fn extend_with_anchor(points: &mut Vec<PathPoint>, x: i64, y: i64)
    ensures
        points_view(final(points)@) == points_view(old(points)@) + seq![anchor(x as int, y as int)],
{
    points.push(PathPoint::anchor(x, y));
    assert(points_view(points@) =~= points_view(old(points)@) + seq![anchor(x as int, y as int)]);
}

/// The outline of a rectangle with rounded corners, closed and stroked.
///
/// `origin` is the lower left corner of the rectangle. The width and the
/// height must be positive, and the radius between zero and half the smaller
/// of them. For a filled rectangle, set the `mode` of the result.
pub fn rounded_rect(origin: Point, width: i64, height: i64, radius: i64) -> (r: Result<
    Path,
    ConfigurationError,
>)
    ensures
        match rounded_rect_refusal(origin@, width as int, height as int, radius as int) {
            Some(e) => r == Err::<Path, ConfigurationError>(e),
            None => r is Ok && r->Ok_0@ == (PathView {
                points: rounded_rect_outline(origin@, width as int, height as int, radius as int),
                closed: true,
                mode: PaintMode::Stroke,
            }),
        },
        r is Ok ==> r->Ok_0@.well_formed(),
{
    if width <= 0 || height <= 0 {
        return Err(ConfigurationError::NonPositiveSize);
    }
    if radius < 0 {
        return Err(ConfigurationError::NegativeRadius);
    }
    if radius > width / 2 || radius > height / 2 {
        return Err(ConfigurationError::RadiusTooLarge);
    }
    let (right, top) = match (origin.x.checked_add(width), origin.y.checked_add(height)) {
        (Some(right), Some(top)) => (right, top),
        _ => {
            return Err(ConfigurationError::Overflow);
        },
    };
    let x0 = origin.x;
    let y0 = origin.y;
    let mut points: Vec<PathPoint> = Vec::new();
    if radius == 0 {
        points.push(PathPoint::anchor(x0, y0));
        points.push(PathPoint::anchor(right, y0));
        points.push(PathPoint::anchor(right, top));
        points.push(PathPoint::anchor(x0, top));
        assert(points_view(points@) =~= rounded_rect_outline(
            origin@,
            width as int,
            height as int,
            radius as int,
        ));
    } else {
        let ghost r = radius as int;
        proof {
            let (l, b, rt, t) = (x0 as int, y0 as int, right as int, top as int);
            lemma_arc_within(at(rt - r, b), at(rt, b + r), r, Quadrant::BottomRight, l, b, rt, t);
            lemma_arc_within(at(rt, t - r), at(rt - r, t), r, Quadrant::TopRight, l, b, rt, t);
            lemma_arc_within(at(l + r, t), at(l, t - r), r, Quadrant::TopLeft, l, b, rt, t);
            lemma_arc_within(at(l, b + r), at(l + r, b), r, Quadrant::BottomLeft, l, b, rt, t);
        }
        points.push(PathPoint::anchor(x0 + radius, y0));
        points.push(PathPoint::anchor(right - radius, y0));
        assert(points_view(points@) =~= seq![
            anchor(x0 + r, y0 as int),
            anchor(right - r, y0 as int),
        ]);
        extend_with_arc(
            &mut points,
            Point::new(right - radius, y0),
            Point::new(right, y0 + radius),
            radius,
            Quadrant::BottomRight,
        );
        extend_with_anchor(&mut points, right, top - radius);
        extend_with_arc(
            &mut points,
            Point::new(right, top - radius),
            Point::new(right - radius, top),
            radius,
            Quadrant::TopRight,
        );
        extend_with_anchor(&mut points, x0 + radius, top);
        extend_with_arc(
            &mut points,
            Point::new(x0 + radius, top),
            Point::new(x0, top - radius),
            radius,
            Quadrant::TopLeft,
        );
        extend_with_anchor(&mut points, x0, y0 + radius);
        extend_with_arc(
            &mut points,
            Point::new(x0, y0 + radius),
            Point::new(x0 + radius, y0),
            radius,
            Quadrant::BottomLeft,
        );
    }
    proof {
        lemma_rounded_rect_closes_and_fills_box(
            origin@,
            width as int,
            height as int,
            radius as int,
        );
    }
    Ok(Path { points, closed: true, mode: PaintMode::Stroke })
}

/// The radius of the round ends of a capsule, and of a circle: half the
/// height, or the diameter, rounded down.
pub open spec fn end_radius(h: int) -> int {
    half(h)
}

/// Whether the two straight edges of a capsule are left out: they are where
/// the round ends leave at most one unit between them.
pub open spec fn ends_meet(w: int, h: int) -> bool {
    w - 2 * end_radius(h) <= 1
}

/// The points of the capsule with the lower left corner of its bounding
/// rectangle at `origin`: a rectangle of the width and height given whose
/// left and right sides are half circles of radius `end_radius(h)`.
///
/// The outline starts where the left half circle meets the bottom edge and
/// runs counter-clockwise. Where the round ends meet, the edges are left out
/// and the right half circle starts from where the left one ends, so that a
/// capsule as wide as it is high is the circle of that diameter.
pub open spec fn capsule_outline(origin: PointView, w: int, h: int) -> Seq<PathPointView> {
    let x0 = origin.x;
    let y0 = origin.y;
    let r = end_radius(h);
    let turn = if ends_meet(w, h) {
        x0 + r
    } else {
        x0 + w - r
    };
    let bottom_edge = if ends_meet(w, h) {
        Seq::<PathPointView>::empty()
    } else {
        seq![anchor(x0 + w - r, y0)]
    };
    let top_edge = if ends_meet(w, h) {
        Seq::<PathPointView>::empty()
    } else {
        seq![anchor(x0 + r, y0 + h)]
    };
    seq![anchor(x0 + r, y0)] + bottom_edge + quarter_arc_points(
        at(turn, y0),
        at(x0 + w, y0 + r),
        r,
        Quadrant::BottomRight,
    ) + quarter_arc_points(at(x0 + w, y0 + r), at(turn, y0 + h), r, Quadrant::TopRight)
        + top_edge + quarter_arc_points(
        at(x0 + r, y0 + h),
        at(x0, y0 + r),
        r,
        Quadrant::TopLeft,
    ) + quarter_arc_points(at(x0, y0 + r), at(x0 + r, y0), r, Quadrant::BottomLeft)
}

/// Why [`capsule`] gives no outline for its arguments, if it gives none.
pub open spec fn capsule_refusal(origin: PointView, w: int, h: int) -> Option<
    ConfigurationError,
> {
    if w <= 0 || h <= 0 {
        Some(ConfigurationError::NonPositiveSize)
    } else if 2 * end_radius(h) > w {
        Some(ConfigurationError::RadiusTooLarge)
    } else if origin.x + w > i64::MAX || origin.y + h > i64::MAX {
        Some(ConfigurationError::Overflow)
    } else {
        None
    }
}

/// The outline of a capsule, closed and stroked: a rectangle whose left and
/// right sides are half circles.
///
/// `origin` is the lower left corner of the bounding rectangle. The width and
/// the height must be positive, and the capsule at least as wide as its two
/// round ends together. A capsule as wide as it is high is a circle.
pub fn capsule(origin: Point, width: i64, height: i64) -> (r: Result<Path, ConfigurationError>)
    ensures
        match capsule_refusal(origin@, width as int, height as int) {
            Some(e) => r == Err::<Path, ConfigurationError>(e),
            None => r is Ok && r->Ok_0@ == (PathView {
                points: capsule_outline(origin@, width as int, height as int),
                closed: true,
                mode: PaintMode::Stroke,
            }),
        },
        r is Ok ==> r->Ok_0@.well_formed(),
{
    if width <= 0 || height <= 0 {
        return Err(ConfigurationError::NonPositiveSize);
    }
    let radius = height / 2;
    if radius > width / 2 {
        return Err(ConfigurationError::RadiusTooLarge);
    }
    let (right, top) = match (origin.x.checked_add(width), origin.y.checked_add(height)) {
        (Some(right), Some(top)) => (right, top),
        _ => {
            return Err(ConfigurationError::Overflow);
        },
    };
    let x0 = origin.x;
    let y0 = origin.y;
    let ghost r = radius as int;
    let has_edges = width - radius - radius > 1;
    let turn = if has_edges {
        right - radius
    } else {
        x0 + radius
    };
    proof {
        let (l, b, rt, t) = (x0 as int, y0 as int, right as int, top as int);
        let tn = turn as int;
        lemma_arc_within(at(tn, b), at(rt, b + r), r, Quadrant::BottomRight, l, b, rt, t);
        lemma_arc_within(at(rt, b + r), at(tn, t), r, Quadrant::TopRight, l, b, rt, t);
        lemma_arc_within(at(l + r, t), at(l, b + r), r, Quadrant::TopLeft, l, b, rt, t);
        lemma_arc_within(at(l, b + r), at(l + r, b), r, Quadrant::BottomLeft, l, b, rt, t);
    }
    let mut points: Vec<PathPoint> = Vec::new();
    points.push(PathPoint::anchor(x0 + radius, y0));
    assert(points_view(points@) =~= seq![anchor(x0 + r, y0 as int)]);
    if has_edges {
        extend_with_anchor(&mut points, right - radius, y0);
    }
    extend_with_arc(
        &mut points,
        Point::new(turn, y0),
        Point::new(right, y0 + radius),
        radius,
        Quadrant::BottomRight,
    );
    extend_with_arc(
        &mut points,
        Point::new(right, y0 + radius),
        Point::new(turn, top),
        radius,
        Quadrant::TopRight,
    );
    if has_edges {
        extend_with_anchor(&mut points, x0 + radius, top);
    }
    extend_with_arc(
        &mut points,
        Point::new(x0 + radius, top),
        Point::new(x0, y0 + radius),
        radius,
        Quadrant::TopLeft,
    );
    extend_with_arc(
        &mut points,
        Point::new(x0, y0 + radius),
        Point::new(x0 + radius, y0),
        radius,
        Quadrant::BottomLeft,
    );
    assert(points_view(points@) =~= capsule_outline(origin@, width as int, height as int));
    proof {
        lemma_capsule_closes_and_fills_box(origin@, width as int, height as int);
    }
    Ok(Path { points, closed: true, mode: PaintMode::Stroke })
}

/// The points of the circle of the diameter given, with the lower left
/// corner of its bounding square at `origin`: four quarter circles of radius
/// `end_radius(d)`, counter-clockwise from the lowest point.
pub open spec fn circle_outline(origin: PointView, d: int) -> Seq<PathPointView> {
    let x0 = origin.x;
    let y0 = origin.y;
    let r = end_radius(d);
    seq![anchor(x0 + r, y0)] + quarter_arc_points(
        at(x0 + r, y0),
        at(x0 + d, y0 + r),
        r,
        Quadrant::BottomRight,
    ) + quarter_arc_points(at(x0 + d, y0 + r), at(x0 + r, y0 + d), r, Quadrant::TopRight)
        + quarter_arc_points(at(x0 + r, y0 + d), at(x0, y0 + r), r, Quadrant::TopLeft)
        + quarter_arc_points(at(x0, y0 + r), at(x0 + r, y0), r, Quadrant::BottomLeft)
}

/// Why [`circle`] gives no outline for its arguments, if it gives none.
pub open spec fn circle_refusal(origin: PointView, d: int) -> Option<ConfigurationError> {
    if d <= 0 {
        Some(ConfigurationError::NonPositiveSize)
    } else if origin.x + d > i64::MAX || origin.y + d > i64::MAX {
        Some(ConfigurationError::Overflow)
    } else {
        None
    }
}

/// The outline of a circle, closed; filled and stroked, or stroked only.
///
/// `origin` is the lower left corner of the bounding square. The diameter
/// must be positive.
pub fn circle(origin: Point, diameter: i64, filled: bool) -> (r: Result<
    Path,
    ConfigurationError,
>)
    ensures
        match circle_refusal(origin@, diameter as int) {
            Some(e) => r == Err::<Path, ConfigurationError>(e),
            None => r is Ok && r->Ok_0@ == (PathView {
                points: circle_outline(origin@, diameter as int),
                closed: true,
                mode: paint_mode(filled),
            }),
        },
        r is Ok ==> r->Ok_0@.well_formed(),
{
    if diameter <= 0 {
        return Err(ConfigurationError::NonPositiveSize);
    }
    let (right, top) = match (origin.x.checked_add(diameter), origin.y.checked_add(diameter)) {
        (Some(right), Some(top)) => (right, top),
        _ => {
            return Err(ConfigurationError::Overflow);
        },
    };
    let radius = diameter / 2;
    let x0 = origin.x;
    let y0 = origin.y;
    let ghost r = radius as int;
    proof {
        let (l, b, rt, t) = (x0 as int, y0 as int, right as int, top as int);
        lemma_arc_within(at(l + r, b), at(rt, b + r), r, Quadrant::BottomRight, l, b, rt, t);
        lemma_arc_within(at(rt, b + r), at(l + r, t), r, Quadrant::TopRight, l, b, rt, t);
        lemma_arc_within(at(l + r, t), at(l, b + r), r, Quadrant::TopLeft, l, b, rt, t);
        lemma_arc_within(at(l, b + r), at(l + r, b), r, Quadrant::BottomLeft, l, b, rt, t);
    }
    let mut points: Vec<PathPoint> = Vec::new();
    points.push(PathPoint::anchor(x0 + radius, y0));
    assert(points_view(points@) =~= seq![anchor(x0 + r, y0 as int)]);
    extend_with_arc(
        &mut points,
        Point::new(x0 + radius, y0),
        Point::new(right, y0 + radius),
        radius,
        Quadrant::BottomRight,
    );
    extend_with_arc(
        &mut points,
        Point::new(right, y0 + radius),
        Point::new(x0 + radius, top),
        radius,
        Quadrant::TopRight,
    );
    extend_with_arc(
        &mut points,
        Point::new(x0 + radius, top),
        Point::new(x0, y0 + radius),
        radius,
        Quadrant::TopLeft,
    );
    extend_with_arc(
        &mut points,
        Point::new(x0, y0 + radius),
        Point::new(x0 + radius, y0),
        radius,
        Quadrant::BottomLeft,
    );
    proof {
        lemma_circle_closes_and_fills_box(origin@, diameter as int);
    }
    Ok(Path { points, closed: true, mode: mode_for(filled) })
}

/// A capsule starts on an anchor, writes each of its curves in full and ends
/// on the anchor it started from; all of its points lie within its bounding
/// rectangle, and on each side of that rectangle lies one of its anchors.
pub proof fn lemma_capsule_closes_and_fills_box(origin: PointView, w: int, h: int)
    requires
        w > 0,
        h > 0,
        2 * end_radius(h) <= w,
    ensures
        ({
            let outline = capsule_outline(origin, w, h);
            &&& outline.len() == if ends_meet(w, h) { 13int } else { 15int }
            &&& !outline.first().control
            &&& outline.last() == outline.first()
            &&& curves_complete_from(outline, 0)
            &&& is_bounding_box(outline, origin.x, origin.y, origin.x + w, origin.y + h)
            &&& anchors_touch(outline, origin.x, origin.y, origin.x + w, origin.y + h)
        }),
{
    let outline = capsule_outline(origin, w, h);
    let (x0, y0) = (origin.x, origin.y);
    let r = end_radius(h);
    let c = spec_arc_handle(r);
    lemma_handle_within_radius(r);
    if !ends_meet(w, h) {
        let flat = seq![
            anchor(x0 + r, y0),
            anchor(x0 + w - r, y0),
            control(x0 + w - r + c, y0),
            control(x0 + w, y0 + r - c),
            anchor(x0 + w, y0 + r),
            control(x0 + w, y0 + r + c),
            control(x0 + w - r + c, y0 + h),
            anchor(x0 + w - r, y0 + h),
            anchor(x0 + r, y0 + h),
            control(x0 + r - c, y0 + h),
            control(x0, y0 + r + c),
            anchor(x0, y0 + r),
            control(x0, y0 + r - c),
            control(x0 + r - c, y0),
            anchor(x0 + r, y0),
        ];
        assert(outline =~= flat);
        assert(curves_complete_from(flat, 0)) by {
            reveal_with_fuel(curves_complete_from, 16);
        }
        assert(flat[0] == anchor(x0 + r, y0));
        assert(flat[4] == anchor(x0 + w, y0 + r));
        assert(flat[7] == anchor(x0 + w - r, y0 + h));
        assert(flat[11] == anchor(x0, y0 + r));
    } else {
        let flat = seq![
            anchor(x0 + r, y0),
            control(x0 + r + c, y0),
            control(x0 + w, y0 + r - c),
            anchor(x0 + w, y0 + r),
            control(x0 + w, y0 + r + c),
            control(x0 + r + c, y0 + h),
            anchor(x0 + r, y0 + h),
            control(x0 + r - c, y0 + h),
            control(x0, y0 + r + c),
            anchor(x0, y0 + r),
            control(x0, y0 + r - c),
            control(x0 + r - c, y0),
            anchor(x0 + r, y0),
        ];
        assert(outline =~= flat);
        assert(curves_complete_from(flat, 0)) by {
            reveal_with_fuel(curves_complete_from, 14);
        }
        assert(flat[0] == anchor(x0 + r, y0));
        assert(flat[3] == anchor(x0 + w, y0 + r));
        assert(flat[6] == anchor(x0 + r, y0 + h));
        assert(flat[9] == anchor(x0, y0 + r));
    }
}

/// A circle starts on an anchor, writes each of its four curves in full and
/// ends on the anchor it started from; all of its points lie within its
/// bounding square, and on each side of that square lies one of its anchors.
pub proof fn lemma_circle_closes_and_fills_box(origin: PointView, d: int)
    requires
        d > 0,
    ensures
        ({
            let outline = circle_outline(origin, d);
            &&& outline.len() == 13
            &&& !outline.first().control
            &&& outline.last() == outline.first()
            &&& curves_complete_from(outline, 0)
            &&& is_bounding_box(outline, origin.x, origin.y, origin.x + d, origin.y + d)
            &&& anchors_touch(outline, origin.x, origin.y, origin.x + d, origin.y + d)
        }),
{
    lemma_square_capsule_is_circle(origin, d);
    lemma_capsule_closes_and_fills_box(origin, d, d);
}

/// A capsule as wide as it is high is a circle: the capsule of width and
/// height `h` has the very points of the circle of diameter `h`, from the
/// same starting point, and is refused exactly where the circle is.
pub proof fn lemma_square_capsule_is_circle(origin: PointView, h: int)
    ensures
        ends_meet(h, h),
        capsule_outline(origin, h, h) == circle_outline(origin, h),
        capsule_refusal(origin, h, h) == circle_refusal(origin, h),
{
    assert(capsule_outline(origin, h, h) =~= circle_outline(origin, h));
}

/// A rounded rectangle is closed on itself and fills its rectangle: for
/// every radius from zero to half the smaller side, the outline starts on an
/// anchor, writes each of its curves in full and, unless the radius is zero,
/// ends on the anchor it started from; all of its points lie within the
/// rectangle from `origin` to `origin + (w, h)`, and on each side of that
/// rectangle lies one of its anchors. With a radius of zero the outline is
/// the four corners, and closing the path joins the last to the first.
pub proof fn lemma_rounded_rect_closes_and_fills_box(origin: PointView, w: int, h: int, r: int)
    requires
        w > 0,
        h > 0,
        0 <= r,
        2 * r <= w,
        2 * r <= h,
    ensures
        ({
            let outline = rounded_rect_outline(origin, w, h, r);
            &&& outline.len() == if r == 0 { 4int } else { 17int }
            &&& !outline.first().control
            &&& r > 0 ==> outline.last() == outline.first()
            &&& curves_complete_from(outline, 0)
            &&& is_bounding_box(outline, origin.x, origin.y, origin.x + w, origin.y + h)
            &&& anchors_touch(outline, origin.x, origin.y, origin.x + w, origin.y + h)
        }),
{
    let outline = rounded_rect_outline(origin, w, h, r);
    let (x0, y0) = (origin.x, origin.y);
    if r == 0 {
        reveal_with_fuel(curves_complete_from, 5);
        assert(outline[0] == anchor(x0, y0));
        assert(outline[2] == anchor(x0 + w, y0 + h));
    } else {
        let c = spec_arc_handle(r);
        lemma_handle_within_radius(r);
        let flat = seq![
            anchor(x0 + r, y0),
            anchor(x0 + w - r, y0),
            control(x0 + w - r + c, y0),
            control(x0 + w, y0 + r - c),
            anchor(x0 + w, y0 + r),
            anchor(x0 + w, y0 + h - r),
            control(x0 + w, y0 + h - r + c),
            control(x0 + w - r + c, y0 + h),
            anchor(x0 + w - r, y0 + h),
            anchor(x0 + r, y0 + h),
            control(x0 + r - c, y0 + h),
            control(x0, y0 + h - r + c),
            anchor(x0, y0 + h - r),
            anchor(x0, y0 + r),
            control(x0, y0 + r - c),
            control(x0 + r - c, y0),
            anchor(x0 + r, y0),
        ];
        assert(outline =~= flat);
        assert(curves_complete_from(flat, 0)) by {
            reveal_with_fuel(curves_complete_from, 18);
        }
        assert(flat[0] == anchor(x0 + r, y0));
        assert(flat[4] == anchor(x0 + w, y0 + r));
        assert(flat[8] == anchor(x0 + w - r, y0 + h));
        assert(flat[12] == anchor(x0, y0 + h - r));
    }
}

} // verus!
