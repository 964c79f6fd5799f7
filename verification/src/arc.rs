//! Quarter circles as single cubic Bezier segments.
//!
//! A quarter circle of radius `r` is drawn as one curve whose two control
//! points stand `0.55191505 * r` away from its end points, each along the
//! tangent there. The outline deviates from the true circle by less than
//! three parts in ten thousand of the radius.

use vstd::prelude::*;
use crate::error::ConfigurationError;
use crate::path::{anchor, control, points_view, PathPoint, PathPointView, Point, PointView};
use crate::units::{lemma_round_div_nearest, mul_div_round, round_div};

verus! {

/// The distance of a control point from its anchor, in hundred-millionths of
/// the radius.
pub const KAPPA_NUMERATOR: i64 = 55_191_505;

/// The denominator that goes with [`KAPPA_NUMERATOR`].
pub const KAPPA_DENOMINATOR: i64 = 100_000_000;

/// The distance of a control point from its anchor for a quarter circle of
/// the radius given: `0.55191505 * radius`, rounded to the nearest unit.
pub open spec fn spec_arc_handle(radius: int) -> int {
    round_div(radius * 55_191_505, 100_000_000)
}

/// Which quarter of a circle a curve follows, named by the corner of the
/// circle's bounding square that it rounds. The outline runs counter-clockwise.
#[derive(Clone, Copy, Debug, PartialEq, Eq, Structural)]
pub enum Quadrant {
    /// From the lowest point of the circle to its rightmost.
    BottomRight,
    /// From the rightmost point to the highest.
    TopRight,
    /// From the highest point to the leftmost.
    TopLeft,
    /// From the leftmost point to the lowest.
    BottomLeft,
}

/// The three points that continue a path from the anchor `start` by a quarter
/// circle to `end`: the control point that leaves `start` along the tangent
/// there, the control point from which the curve arrives at `end` along the
/// tangent there, and the anchor `end`.
pub open spec fn quarter_arc_points(
    start: PointView,
    end: PointView,
    radius: int,
    quadrant: Quadrant,
) -> Seq<PathPointView> {
    let c = spec_arc_handle(radius);
    match quadrant {
        Quadrant::BottomRight => seq![
            control(start.x + c, start.y),
            control(end.x, end.y - c),
            anchor(end.x, end.y),
        ],
        Quadrant::TopRight => seq![
            control(start.x, start.y + c),
            control(end.x + c, end.y),
            anchor(end.x, end.y),
        ],
        Quadrant::TopLeft => seq![
            control(start.x - c, start.y),
            control(end.x, end.y + c),
            anchor(end.x, end.y),
        ],
        Quadrant::BottomLeft => seq![
            control(start.x, start.y - c),
            control(end.x - c, end.y),
            anchor(end.x, end.y),
        ],
    }
}

/// The square of the distance between two points.
pub open spec fn distance_squared(a: PointView, b: PointView) -> int {
    (a.x - b.x) * (a.x - b.x) + (a.y - b.y) * (a.y - b.y)
}

/// Whether every coordinate of the points given fits in an `i64`.
pub open spec fn representable(points: Seq<PathPointView>) -> bool {
    forall|i: int|
        0 <= i < points.len() ==> i64::MIN <= (#[trigger] points[i]).point.x <= i64::MAX
            && i64::MIN <= points[i].point.y <= i64::MAX
}

/// Why [`quarter_arc`] gives no curve for its arguments, if it gives none.
pub open spec fn quarter_arc_refusal(
    start: PointView,
    end: PointView,
    radius: int,
    quadrant: Quadrant,
) -> Option<ConfigurationError> {
    if radius < 0 {
        Some(ConfigurationError::NegativeRadius)
    } else if !representable(quarter_arc_points(start, end, radius, quadrant)) {
        Some(ConfigurationError::Overflow)
    } else {
        None
    }
}

/// The control points of a quarter circle stand exactly
/// `spec_arc_handle(radius)` away from their anchors, and that distance is
/// `0.55191505 * radius` to within half a unit.
pub proof fn lemma_control_distance(
    start: PointView,
    end: PointView,
    radius: int,
    quadrant: Quadrant,
)
    ensures
        ({
            let arc = quarter_arc_points(start, end, radius, quadrant);
            let c = spec_arc_handle(radius);
            &&& arc.len() == 3
            &&& arc[0].control && arc[1].control && !arc[2].control
            &&& arc[2].point == end
            &&& distance_squared(arc[0].point, start) == c * c
            &&& distance_squared(arc[1].point, end) == c * c
            &&& -50_000_000 < c * 100_000_000 - radius * 55_191_505 <= 50_000_000
            &&& radius >= 0 ==> 0 <= c <= radius
        }),
{
    let c = spec_arc_handle(radius);
    lemma_round_div_nearest(radius * 55_191_505, 100_000_000);
    lemma_handle_within_radius(radius);
    assert((0 - c) * (0 - c) == c * c) by (nonlinear_arith);
    assert(0int * 0int == 0);
}

/// For a radius that is not negative, the handle is neither negative nor
/// longer than the radius.
pub proof fn lemma_handle_within_radius(radius: int)
    ensures
        radius >= 0 ==> 0 <= spec_arc_handle(radius) <= radius,
{
    if radius >= 0 {
        lemma_round_div_nearest(radius * 55_191_505, 100_000_000);
        let c = spec_arc_handle(radius);
        if c > radius {
            assert(c * 100_000_000 >= (radius + 1) * 100_000_000) by (nonlinear_arith)
                requires
                    c >= radius + 1,
            ;
        }
        if c < 0 {
            assert(c * 100_000_000 <= -100_000_000) by (nonlinear_arith)
                requires
                    c <= -1,
            ;
        }
    }
}

/// The distance of a control point from its anchor for a quarter circle of
/// the radius given.
pub fn arc_handle(radius: i64) -> (c: i64)
    ensures
        c == spec_arc_handle(radius as int),
{
    let q = mul_div_round(radius, KAPPA_NUMERATOR, KAPPA_DENOMINATOR);
    proof {
        lemma_round_div_nearest(radius * 55_191_505, 100_000_000);
    }
    q as i64
}

/// Continues a path from the anchor `start` by a quarter circle to `end`.
///
/// The result holds the three points to append after `start`: two control
/// points and the anchor `end`. The curve is
/// refused for a negative radius, and where a control point would lie beyond
/// the coordinates that an `i64` holds.
pub fn quarter_arc(start: Point, end: Point, radius: i64, quadrant: Quadrant) -> (r: Result<
    Vec<PathPoint>,
    ConfigurationError,
>)
    ensures
        match quarter_arc_refusal(start@, end@, radius as int, quadrant) {
            Some(e) => r == Err::<Vec<PathPoint>, ConfigurationError>(e),
            None => r is Ok && points_view(r->Ok_0@) == quarter_arc_points(
                start@,
                end@,
                radius as int,
                quadrant,
            ),
        },
{
    if radius < 0 {
        return Err(ConfigurationError::NegativeRadius);
    }
    let c = arc_handle(radius);
    proof {
        lemma_handle_within_radius(radius as int);
    }
    let ghost expected = quarter_arc_points(start@, end@, radius as int, quadrant);
    let (leave, arrive) = match quadrant {
        Quadrant::BottomRight => (start.x.checked_add(c), end.y.checked_sub(c)),
        Quadrant::TopRight => (start.y.checked_add(c), end.x.checked_add(c)),
        Quadrant::TopLeft => (start.x.checked_sub(c), end.y.checked_add(c)),
        Quadrant::BottomLeft => (start.y.checked_sub(c), end.x.checked_sub(c)),
    };
    match (leave, arrive) {
        (Some(a), Some(b)) => {
            let (first, second) = match quadrant {
                Quadrant::BottomRight => (
                    PathPoint::control(a, start.y),
                    PathPoint::control(end.x, b),
                ),
                Quadrant::TopRight => (
                    PathPoint::control(start.x, a),
                    PathPoint::control(b, end.y),
                ),
                Quadrant::TopLeft => (
                    PathPoint::control(a, start.y),
                    PathPoint::control(end.x, b),
                ),
                Quadrant::BottomLeft => (
                    PathPoint::control(start.x, a),
                    PathPoint::control(b, end.y),
                ),
            };
            let mut points: Vec<PathPoint> = Vec::new();
            points.push(first);
            points.push(second);
            points.push(PathPoint::anchor(end.x, end.y));
            proof {
                assert(points_view(points@) =~= expected);
                assert(representable(expected));
            }
            Ok(points)
        },
        _ => {
            proof {
                assert(!representable(expected)) by {
                    if representable(expected) {
                        assert(i64::MIN <= expected[0].point.x <= i64::MAX);
                        assert(i64::MIN <= expected[0].point.y <= i64::MAX);
                        assert(i64::MIN <= expected[1].point.x <= i64::MAX);
                        assert(i64::MIN <= expected[1].point.y <= i64::MAX);
                    }
                }
            }
            Err(ConfigurationError::Overflow)
        },
    }
}

} // verus!
