//! Points, paths and what a path covers.
//!
//! A path is a list of points, each marked as an anchor, through which the
//! outline passes, or as a control point, which only bends it. A cubic
//! Bezier segment is written as three points after the anchor it starts
//! from: its two control points and the anchor it ends on. Any other anchor
//! is reached by a straight edge.

use vstd::prelude::*;

verus! {

/// A position on the page, in millionths of a millimetre from the lower left
/// corner.
#[derive(Clone, Copy, Debug, PartialEq, Eq, Structural)]
pub struct Point {
    pub x: i64,
    pub y: i64,
}

/// A [`Point`] as a pair of mathematical integers.
pub struct PointView {
    pub x: int,
    pub y: int,
}

impl View for Point {
    type V = PointView;

    open spec fn view(&self) -> PointView {
        PointView { x: self.x as int, y: self.y as int }
    }
}

impl Point {
    pub fn new(x: i64, y: i64) -> (p: Point)
        ensures
            p@ == (PointView { x: x as int, y: y as int }),
    {
        Point { x, y }
    }
}

/// One point of a path: an anchor on the outline, or a control point off it.
#[derive(Clone, Copy, Debug, PartialEq, Eq, Structural)]
pub struct PathPoint {
    pub point: Point,
    pub control: bool,
}

/// A [`PathPoint`] over mathematical integers.
pub struct PathPointView {
    pub point: PointView,
    pub control: bool,
}

impl View for PathPoint {
    type V = PathPointView;

    open spec fn view(&self) -> PathPointView {
        PathPointView { point: self.point@, control: self.control }
    }
}

/// The anchor at `(x, y)`.
pub open spec fn anchor(x: int, y: int) -> PathPointView {
    PathPointView { point: PointView { x, y }, control: false }
}

/// The control point at `(x, y)`.
pub open spec fn control(x: int, y: int) -> PathPointView {
    PathPointView { point: PointView { x, y }, control: true }
}

impl PathPoint {
    /// An anchor: the outline passes through it.
    pub fn anchor(x: i64, y: i64) -> (p: PathPoint)
        ensures
            p@ == anchor(x as int, y as int),
    {
        PathPoint { point: Point { x, y }, control: false }
    }

    /// A control point: it bends the outline without lying on it.
    pub fn control(x: i64, y: i64) -> (p: PathPoint)
        ensures
            p@ == control(x as int, y as int),
    {
        PathPoint { point: Point { x, y }, control: true }
    }
}

/// How a path is painted.
#[derive(Clone, Copy, Debug, PartialEq, Eq, Structural)]
pub enum PaintMode {
    /// Only the outline is drawn.
    Stroke,
    /// The inside is filled and the outline drawn.
    FillStroke,
}

/// How a shape is painted: filled and stroked, or stroked only.
pub open spec fn paint_mode(filled: bool) -> PaintMode {
    if filled {
        PaintMode::FillStroke
    } else {
        PaintMode::Stroke
    }
}

/// How a shape is painted: filled and stroked, or stroked only.
pub fn mode_for(filled: bool) -> (mode: PaintMode)
    ensures
        mode == paint_mode(filled),
{
    if filled {
        PaintMode::FillStroke
    } else {
        PaintMode::Stroke
    }
}

/// An outline: its points in order, whether the last point is joined back to
/// the first, and how it is painted.
#[derive(Clone, Debug, PartialEq, Eq)]
pub struct Path {
    pub points: Vec<PathPoint>,
    pub closed: bool,
    pub mode: PaintMode,
}

/// A [`Path`] as a sequence of points over mathematical integers.
pub struct PathView {
    pub points: Seq<PathPointView>,
    pub closed: bool,
    pub mode: PaintMode,
}

/// The points of a path, each by its view.
pub open spec fn points_view(points: Seq<PathPoint>) -> Seq<PathPointView> {
    points.map_values(|p: PathPoint| p@)
}

impl View for Path {
    type V = PathView;

    open spec fn view(&self) -> PathView {
        PathView { points: points_view(self.points@), closed: self.closed, mode: self.mode }
    }
}

/// From index `i` on, every control-marked point of `points` belongs to a
/// curve that is written in full: an anchor, a pair of control points, and
/// an anchor.
pub open spec fn curves_complete_from(points: Seq<PathPointView>, i: int) -> bool
    decreases points.len() - i,
{
    if i >= points.len() {
        true
    } else if !points[i].control {
        curves_complete_from(points, i + 1)
    } else {
        &&& 1 <= i
        &&& i + 2 < points.len()
        &&& !points[i - 1].control
        &&& points[i + 1].control
        &&& !points[i + 2].control
        &&& curves_complete_from(points, i + 3)
    }
}

/// A path of anchors only has no curve to complete.
pub proof fn lemma_anchors_only(points: Seq<PathPointView>, i: int)
    requires
        0 <= i,
        forall|j: int| 0 <= j < points.len() ==> !(#[trigger] points[j]).control,
    ensures
        curves_complete_from(points, i),
    decreases points.len() - i,
{
    if i < points.len() {
        lemma_anchors_only(points, i + 1);
    }
}

/// An axis-parallel rectangle, by the coordinates of its four sides.
#[derive(Clone, Copy, Debug, PartialEq, Eq, Structural)]
pub struct Bounds {
    pub left: i64,
    pub bottom: i64,
    pub right: i64,
    pub top: i64,
}

/// Every point of `points` lies between the four sides, the sides included.
pub open spec fn all_within(
    points: Seq<PathPointView>,
    left: int,
    bottom: int,
    right: int,
    top: int,
) -> bool {
    forall|i: int|
        0 <= i < points.len() ==> left <= (#[trigger] points[i]).point.x <= right && bottom
            <= points[i].point.y <= top
}

/// The rectangle with the four sides given is the smallest that holds every
/// point of `points`: all of them lie within it, and on each side lies one.
pub open spec fn is_bounding_box(
    points: Seq<PathPointView>,
    left: int,
    bottom: int,
    right: int,
    top: int,
) -> bool {
    &&& all_within(points, left, bottom, right, top)
    &&& exists|i: int| 0 <= i < points.len() && (#[trigger] points[i]).point.x == left
    &&& exists|i: int| 0 <= i < points.len() && (#[trigger] points[i]).point.y == bottom
    &&& exists|i: int| 0 <= i < points.len() && (#[trigger] points[i]).point.x == right
    &&& exists|i: int| 0 <= i < points.len() && (#[trigger] points[i]).point.y == top
}

/// On each of the four sides given lies an anchor of `points`.
pub open spec fn anchors_touch(
    points: Seq<PathPointView>,
    left: int,
    bottom: int,
    right: int,
    top: int,
) -> bool {
    &&& exists|i: int|
        0 <= i < points.len() && !(#[trigger] points[i]).control && points[i].point.x == left
    &&& exists|i: int|
        0 <= i < points.len() && !(#[trigger] points[i]).control && points[i].point.y == bottom
    &&& exists|i: int|
        0 <= i < points.len() && !(#[trigger] points[i]).control && points[i].point.x == right
    &&& exists|i: int|
        0 <= i < points.len() && !(#[trigger] points[i]).control && points[i].point.y == top
}

impl PathView {
    /// The path starts on an anchor and writes each of its curves in full.
    pub open spec fn well_formed(self) -> bool {
        &&& self.points.len() > 0
        &&& curves_complete_from(self.points, 0)
    }
}

impl Path {
    /// The smallest rectangle that holds every point of the path, control
    /// points included; `None` for a path without points.
    ///
    /// A curve stays within the hull of its four points, so the outline
    /// itself lies within this rectangle too.
    pub fn bounding_box(&self) -> (r: Option<Bounds>)
        ensures
            r is None <==> self@.points.len() == 0,
            r matches Some(b) ==> is_bounding_box(
                self@.points,
                b.left as int,
                b.bottom as int,
                b.right as int,
                b.top as int,
            ),
    {
        let n = self.points.len();
        if n == 0 {
            return None;
        }
        let first = self.points[0];
        let mut b = Bounds {
            left: first.point.x,
            bottom: first.point.y,
            right: first.point.x,
            top: first.point.y,
        };
        let ghost mut at_left: int = 0;
        let ghost mut at_bottom: int = 0;
        let ghost mut at_right: int = 0;
        let ghost mut at_top: int = 0;
        let mut i: usize = 1;
        while i < n
            invariant
                n == self.points.len(),
                1 <= i <= n,
                0 <= at_left < i && self@.points[at_left].point.x == b.left,
                0 <= at_bottom < i && self@.points[at_bottom].point.y == b.bottom,
                0 <= at_right < i && self@.points[at_right].point.x == b.right,
                0 <= at_top < i && self@.points[at_top].point.y == b.top,
                forall|j: int|
                    0 <= j < i ==> b.left <= (#[trigger] self@.points[j]).point.x <= b.right
                        && b.bottom <= self@.points[j].point.y <= b.top,
            decreases n - i,
        {
            let p = self.points[i];
            assert(self@.points[i as int] == p@);
            if p.point.x < b.left {
                b.left = p.point.x;
                proof {
                    at_left = i as int;
                }
            }
            if p.point.x > b.right {
                b.right = p.point.x;
                proof {
                    at_right = i as int;
                }
            }
            if p.point.y < b.bottom {
                b.bottom = p.point.y;
                proof {
                    at_bottom = i as int;
                }
            }
            if p.point.y > b.top {
                b.top = p.point.y;
                proof {
                    at_top = i as int;
                }
            }
            i += 1;
        }
        Some(b)
    }
}

} // verus!
