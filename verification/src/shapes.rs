//! Drawing the symbols of the catalogue on a canvas.
//!
//! Every symbol sets the colours that it needs before it paints. A symbol
//! made of strokes also sets the stroke width, and sets it back to the
//! neutral width afterwards, so that nothing of it is left for what is drawn
//! next.

use vstd::prelude::*;
use crate::canvas::{stroke_width_after, Canvas, DrawCommandView, FontHandle, NEUTRAL_STROKE_WIDTH};
pub use crate::catalog::{Symbol, SymbolColor};
use crate::catalog::{Glyph, PolygonShape, RenderStrategy, StrokeShape};
use crate::error::ConfigurationError;
use crate::outline::{circle, circle_outline};
use crate::path::{paint_mode, PaintMode, PathPointView, PathView, Point, PointView};
use crate::polygon::{
    bracket, bracket_outline, chevron, chevron_outline, cross, falling_diagonal, rising_diagonal,
    shape_refusal, square, square_outline, triangle, triangle_outline,
};
use crate::units::{pt_to_mm, spec_pt_to_mm};

verus! {

/// The stroke width of a plain symbol made of strokes: half a point.
pub const THIN_STROKE: i64 = 500_000;

/// The stroke width of a filled symbol made of strokes: one point.
pub const HEAVY_STROKE: i64 = 1_000_000;

/// The stroke width of a symbol made of strokes.
pub open spec fn stroke_weight(filled: bool) -> int {
    if filled {
        HEAVY_STROKE as int
    } else {
        THIN_STROKE as int
    }
}

/// A closed path, filled and stroked or stroked only.
pub open spec fn closed_path(points: Seq<PathPointView>, filled: bool) -> PathView {
    PathView { points, closed: true, mode: paint_mode(filled) }
}

/// An open path, stroked.
pub open spec fn open_stroke(points: Seq<PathPointView>) -> PathView {
    PathView { points, closed: false, mode: PaintMode::Stroke }
}

/// What [`draw_square`] paints.
pub open spec fn square_commands(
    origin: PointView,
    size_pt: int,
    filled: bool,
    color: SymbolColor,
) -> Seq<DrawCommandView> {
    seq![
        DrawCommandView::SetFillColor(color.rgb()),
        DrawCommandView::SetStrokeColor(color.rgb()),
        DrawCommandView::AddPath(closed_path(square_outline(origin, size_pt), filled)),
    ]
}

/// What [`draw_triangle`] paints.
pub open spec fn triangle_commands(
    origin: PointView,
    size_pt: int,
    filled: bool,
    color: SymbolColor,
) -> Seq<DrawCommandView> {
    seq![
        DrawCommandView::SetFillColor(color.rgb()),
        DrawCommandView::SetStrokeColor(color.rgb()),
        DrawCommandView::AddPath(closed_path(triangle_outline(origin, size_pt), filled)),
    ]
}

/// What [`draw_circle`] paints: the circle whose diameter is the symbol size
/// in page units.
pub open spec fn circle_commands(
    origin: PointView,
    size_pt: int,
    filled: bool,
    color: SymbolColor,
) -> Seq<DrawCommandView> {
    seq![
        DrawCommandView::SetFillColor(color.rgb()),
        DrawCommandView::SetStrokeColor(color.rgb()),
        DrawCommandView::AddPath(
            closed_path(circle_outline(origin, spec_pt_to_mm(size_pt)), filled),
        ),
    ]
}

/// What [`draw_x`] paints.
pub open spec fn x_commands(
    origin: PointView,
    size_pt: int,
    thick: bool,
    color: SymbolColor,
) -> Seq<DrawCommandView> {
    seq![
        DrawCommandView::SetStrokeColor(color.rgb()),
        DrawCommandView::SetStrokeWidth(stroke_weight(thick)),
        DrawCommandView::AddPath(open_stroke(rising_diagonal(origin, size_pt))),
        DrawCommandView::AddPath(open_stroke(falling_diagonal(origin, size_pt))),
        DrawCommandView::SetStrokeWidth(NEUTRAL_STROKE_WIDTH as int),
    ]
}

/// What [`draw_angle`] paints.
pub open spec fn angle_commands(
    origin: PointView,
    size_pt: int,
    left: bool,
    filled: bool,
    color: SymbolColor,
) -> Seq<DrawCommandView> {
    seq![
        DrawCommandView::SetStrokeColor(color.rgb()),
        DrawCommandView::SetFillColor(color.rgb()),
        DrawCommandView::SetStrokeWidth(stroke_weight(filled)),
        DrawCommandView::AddPath(
            PathView {
                points: chevron_outline(origin, size_pt, left),
                closed: filled,
                mode: paint_mode(filled),
            },
        ),
        DrawCommandView::SetStrokeWidth(NEUTRAL_STROKE_WIDTH as int),
    ]
}

/// What [`draw_bracket`] paints.
pub open spec fn bracket_commands(
    origin: PointView,
    size_pt: int,
    left: bool,
    filled: bool,
    color: SymbolColor,
) -> Seq<DrawCommandView> {
    seq![
        DrawCommandView::SetStrokeColor(color.rgb()),
        DrawCommandView::SetStrokeWidth(stroke_weight(filled)),
        DrawCommandView::AddPath(open_stroke(bracket_outline(origin, size_pt, left))),
        DrawCommandView::SetStrokeWidth(NEUTRAL_STROKE_WIDTH as int),
    ]
}

/// What [`draw_glyph`] paints.
pub open spec fn glyph_commands(
    glyph: Glyph,
    font: FontHandle,
    origin: PointView,
    size_pt: int,
    color: SymbolColor,
) -> Seq<DrawCommandView> {
    seq![
        DrawCommandView::SetFillColor(color.rgb()),
        DrawCommandView::SetStrokeColor(color.rgb()),
        DrawCommandView::AddText { text: glyph.spec_text(), font, size_pt, position: origin },
    ]
}

/// Why a glyph of the size given is not written, if it is not.
pub open spec fn glyph_refusal(size_pt: int) -> Option<ConfigurationError> {
    if size_pt <= 0 {
        Some(ConfigurationError::NonPositiveSize)
    } else {
        None
    }
}

/// Why [`draw_symbol`] draws nothing for its arguments, if it draws nothing.
pub open spec fn symbol_refusal(symbol: Symbol, pos: PointView, size_pt: int) -> Option<
    ConfigurationError,
> {
    match symbol.spec_strategy() {
        RenderStrategy::GlyphText(_) => glyph_refusal(size_pt),
        _ => shape_refusal(pos, size_pt),
    }
}

/// What [`draw_symbol`] paints for a symbol that it does not refuse.
pub open spec fn symbol_commands(
    symbol: Symbol,
    font: FontHandle,
    pos: PointView,
    size_pt: int,
    color: SymbolColor,
) -> Seq<DrawCommandView> {
    let filled = symbol.spec_is_filled();
    match symbol.spec_strategy() {
        RenderStrategy::Polygon(PolygonShape::Square) => square_commands(
            pos,
            size_pt,
            filled,
            color,
        ),
        RenderStrategy::Polygon(PolygonShape::Triangle) => triangle_commands(
            pos,
            size_pt,
            filled,
            color,
        ),
        RenderStrategy::Polygon(PolygonShape::Circle) => circle_commands(
            pos,
            size_pt,
            filled,
            color,
        ),
        RenderStrategy::Polygon(PolygonShape::Chevron { points_left }) => angle_commands(
            pos,
            size_pt,
            points_left,
            true,
            color,
        ),
        RenderStrategy::OpenStroke(StrokeShape::Cross) => x_commands(pos, size_pt, filled, color),
        RenderStrategy::OpenStroke(StrokeShape::Chevron { points_left }) => angle_commands(
            pos,
            size_pt,
            points_left,
            false,
            color,
        ),
        RenderStrategy::OpenStroke(StrokeShape::Bracket { left }) => bracket_commands(
            pos,
            size_pt,
            left,
            filled,
            color,
        ),
        RenderStrategy::GlyphText(glyph) => glyph_commands(glyph, font, pos, size_pt, color),
    }
}

/// The stroke width of a symbol made of strokes.
fn weight_for(filled: bool) -> (w: i64)
    ensures
        w == stroke_weight(filled),
{
    if filled {
        HEAVY_STROKE
    } else {
        THIN_STROKE
    }
}

/// Draws a square in the colour given, filled or as an outline.
pub fn draw_square(
    canvas: &mut Canvas,
    origin: Point,
    size_pt: i64,
    filled: bool,
    color: SymbolColor,
) -> (r: Result<(), ConfigurationError>)
    ensures
        match shape_refusal(origin@, size_pt as int) {
            Some(e) => r == Err::<(), ConfigurationError>(e) && final(canvas)@ == old(canvas)@,
            None => r is Ok && final(canvas)@ == old(canvas)@ + square_commands(
                origin@,
                size_pt as int,
                filled,
                color,
            ),
        },
{
    let path = match square(origin, size_pt, filled) {
        Ok(path) => path,
        Err(e) => {
            return Err(e);
        },
    };
    let c = color.to_color();
    canvas.set_fill_color(c);
    canvas.set_stroke_color(c);
    canvas.add_path(path);
    assert(canvas@ =~= old(canvas)@ + square_commands(origin@, size_pt as int, filled, color));
    Ok(())
}

/// Draws a triangle in the colour given, filled or as an outline.
pub fn draw_triangle(
    canvas: &mut Canvas,
    origin: Point,
    size_pt: i64,
    filled: bool,
    color: SymbolColor,
) -> (r: Result<(), ConfigurationError>)
    ensures
        match shape_refusal(origin@, size_pt as int) {
            Some(e) => r == Err::<(), ConfigurationError>(e) && final(canvas)@ == old(canvas)@,
            None => r is Ok && final(canvas)@ == old(canvas)@ + triangle_commands(
                origin@,
                size_pt as int,
                filled,
                color,
            ),
        },
{
    let path = match triangle(origin, size_pt, filled) {
        Ok(path) => path,
        Err(e) => {
            return Err(e);
        },
    };
    let c = color.to_color();
    canvas.set_fill_color(c);
    canvas.set_stroke_color(c);
    canvas.add_path(path);
    assert(canvas@ =~= old(canvas)@ + triangle_commands(origin@, size_pt as int, filled, color));
    Ok(())
}

/// Draws a circle in the colour given, filled or as an outline.
pub fn draw_circle(
    canvas: &mut Canvas,
    origin: Point,
    size_pt: i64,
    filled: bool,
    color: SymbolColor,
) -> (r: Result<(), ConfigurationError>)
    ensures
        match shape_refusal(origin@, size_pt as int) {
            Some(e) => r == Err::<(), ConfigurationError>(e) && final(canvas)@ == old(canvas)@,
            None => r is Ok && final(canvas)@ == old(canvas)@ + circle_commands(
                origin@,
                size_pt as int,
                filled,
                color,
            ),
        },
{
    let diameter = pt_to_mm(size_pt);
    let path = match circle(origin, diameter, filled) {
        Ok(path) => path,
        Err(e) => {
            return Err(e);
        },
    };
    let c = color.to_color();
    canvas.set_fill_color(c);
    canvas.set_stroke_color(c);
    canvas.add_path(path);
    assert(canvas@ =~= old(canvas)@ + circle_commands(origin@, size_pt as int, filled, color));
    Ok(())
}

/// Draws a cross in the colour given, with thin strokes or thick ones.
pub fn draw_x(
    canvas: &mut Canvas,
    origin: Point,
    size_pt: i64,
    thick: bool,
    color: SymbolColor,
) -> (r: Result<(), ConfigurationError>)
    ensures
        match shape_refusal(origin@, size_pt as int) {
            Some(e) => r == Err::<(), ConfigurationError>(e) && final(canvas)@ == old(canvas)@,
            None => r is Ok && final(canvas)@ == old(canvas)@ + x_commands(
                origin@,
                size_pt as int,
                thick,
                color,
            ),
        },
{
    let (rising, falling) = match cross(origin, size_pt) {
        Ok(strokes) => strokes,
        Err(e) => {
            return Err(e);
        },
    };
    canvas.set_stroke_color(color.to_color());
    canvas.set_stroke_width(weight_for(thick));
    canvas.add_path(rising);
    canvas.add_path(falling);
    canvas.set_stroke_width(NEUTRAL_STROKE_WIDTH);
    assert(canvas@ =~= old(canvas)@ + x_commands(origin@, size_pt as int, thick, color));
    Ok(())
}

/// Draws a chevron in the colour given: filled and closed, or as two thin
/// strokes. One that points left is the sign "less than".
pub fn draw_angle(
    canvas: &mut Canvas,
    origin: Point,
    size_pt: i64,
    left: bool,
    filled: bool,
    color: SymbolColor,
) -> (r: Result<(), ConfigurationError>)
    ensures
        match shape_refusal(origin@, size_pt as int) {
            Some(e) => r == Err::<(), ConfigurationError>(e) && final(canvas)@ == old(canvas)@,
            None => r is Ok && final(canvas)@ == old(canvas)@ + angle_commands(
                origin@,
                size_pt as int,
                left,
                filled,
                color,
            ),
        },
{
    let path = match chevron(origin, size_pt, left, filled) {
        Ok(path) => path,
        Err(e) => {
            return Err(e);
        },
    };
    let c = color.to_color();
    canvas.set_stroke_color(c);
    canvas.set_fill_color(c);
    canvas.set_stroke_width(weight_for(filled));
    canvas.add_path(path);
    canvas.set_stroke_width(NEUTRAL_STROKE_WIDTH);
    assert(canvas@ =~= old(canvas)@ + angle_commands(
        origin@,
        size_pt as int,
        left,
        filled,
        color,
    ));
    Ok(())
}

/// Draws a bracket in the colour given, with a thin stroke or, filled, a
/// thick one.
pub fn draw_bracket(
    canvas: &mut Canvas,
    origin: Point,
    size_pt: i64,
    left: bool,
    filled: bool,
    color: SymbolColor,
) -> (r: Result<(), ConfigurationError>)
    ensures
        match shape_refusal(origin@, size_pt as int) {
            Some(e) => r == Err::<(), ConfigurationError>(e) && final(canvas)@ == old(canvas)@,
            None => r is Ok && final(canvas)@ == old(canvas)@ + bracket_commands(
                origin@,
                size_pt as int,
                left,
                filled,
                color,
            ),
        },
{
    let path = match bracket(origin, size_pt, left) {
        Ok(path) => path,
        Err(e) => {
            return Err(e);
        },
    };
    canvas.set_stroke_color(color.to_color());
    canvas.set_stroke_width(weight_for(filled));
    canvas.add_path(path);
    canvas.set_stroke_width(NEUTRAL_STROKE_WIDTH);
    assert(canvas@ =~= old(canvas)@ + bracket_commands(
        origin@,
        size_pt as int,
        left,
        filled,
        color,
    ));
    Ok(())
}

/// Writes a glyph in the colour given, its baseline starting at `origin`.
pub fn draw_glyph(
    canvas: &mut Canvas,
    font: FontHandle,
    glyph: Glyph,
    origin: Point,
    size_pt: i64,
    color: SymbolColor,
) -> (r: Result<(), ConfigurationError>)
    ensures
        match glyph_refusal(size_pt as int) {
            Some(e) => r == Err::<(), ConfigurationError>(e) && final(canvas)@ == old(canvas)@,
            None => r is Ok && final(canvas)@ == old(canvas)@ + glyph_commands(
                glyph,
                font,
                origin@,
                size_pt as int,
                color,
            ),
        },
{
    if size_pt <= 0 {
        return Err(ConfigurationError::NonPositiveSize);
    }
    let c = color.to_color();
    canvas.set_fill_color(c);
    canvas.set_stroke_color(c);
    canvas.add_text(glyph.text(), font, size_pt, origin);
    assert(canvas@ =~= old(canvas)@ + glyph_commands(glyph, font, origin@, size_pt as int, color));
    Ok(())
}

/// Draws a symbol of the catalogue at `pos`, of the size given in points, in
/// the colour given.
///
/// A symbol that is a shape is laid out in the square of which `pos` is the
/// lower left corner; one that is text is written with `font`, its baseline
/// starting at `pos`. A symbol that is refused leaves the canvas as it was.
pub fn draw_symbol(
    canvas: &mut Canvas,
    font: FontHandle,
    symbol: Symbol,
    pos: Point,
    size: i64,
    color: SymbolColor,
) -> (r: Result<(), ConfigurationError>)
    ensures
        match symbol_refusal(symbol, pos@, size as int) {
            Some(e) => r == Err::<(), ConfigurationError>(e) && final(canvas)@ == old(canvas)@,
            None => r is Ok && final(canvas)@ == old(canvas)@ + symbol_commands(
                symbol,
                font,
                pos@,
                size as int,
                color,
            ),
        },
{
    let filled = symbol.is_filled();
    match symbol.strategy() {
        RenderStrategy::Polygon(PolygonShape::Square) => draw_square(
            canvas,
            pos,
            size,
            filled,
            color,
        ),
        RenderStrategy::Polygon(PolygonShape::Triangle) => draw_triangle(
            canvas,
            pos,
            size,
            filled,
            color,
        ),
        RenderStrategy::Polygon(PolygonShape::Circle) => draw_circle(
            canvas,
            pos,
            size,
            filled,
            color,
        ),
        RenderStrategy::Polygon(PolygonShape::Chevron { points_left }) => draw_angle(
            canvas,
            pos,
            size,
            points_left,
            true,
            color,
        ),
        RenderStrategy::OpenStroke(StrokeShape::Cross) => draw_x(canvas, pos, size, filled, color),
        RenderStrategy::OpenStroke(StrokeShape::Chevron { points_left }) => draw_angle(
            canvas,
            pos,
            size,
            points_left,
            false,
            color,
        ),
        RenderStrategy::OpenStroke(StrokeShape::Bracket { left }) => draw_bracket(
            canvas,
            pos,
            size,
            left,
            filled,
            color,
        ),
        RenderStrategy::GlyphText(glyph) => draw_glyph(canvas, font, glyph, pos, size, color),
    }
}

/// A symbol leaves no stroke width behind: after it the stroke width is
/// neutral if the symbol set one, and what it was before if it set none. So
/// on a canvas whose stroke width is neutral it is neutral after every
/// symbol.
pub proof fn lemma_symbol_restores_stroke_width(
    before: Seq<DrawCommandView>,
    symbol: Symbol,
    font: FontHandle,
    pos: PointView,
    size_pt: int,
    color: SymbolColor,
)
    ensures
        ({
            let after = before + symbol_commands(symbol, font, pos, size_pt, color);
            let sets_width = symbol.spec_strategy() is OpenStroke || symbol.spec_strategy()
                matches RenderStrategy::Polygon(PolygonShape::Chevron { .. });
            &&& sets_width ==> stroke_width_after(after) == NEUTRAL_STROKE_WIDTH
            &&& !sets_width ==> stroke_width_after(after) == stroke_width_after(before)
            &&& stroke_width_after(before) == NEUTRAL_STROKE_WIDTH ==> stroke_width_after(after)
                == NEUTRAL_STROKE_WIDTH
        }),
{
    let commands = symbol_commands(symbol, font, pos, size_pt, color);
    let after = before + commands;
    let sets_width = symbol.spec_strategy() is OpenStroke || symbol.spec_strategy()
        matches RenderStrategy::Polygon(PolygonShape::Chevron { .. });
    if sets_width {
        assert(after.last() == commands.last());
        assert(after.last() == DrawCommandView::SetStrokeWidth(NEUTRAL_STROKE_WIDTH as int));
    } else {
        assert(commands.len() == 3);
        let a1 = before.push(commands[0]);
        let a2 = a1.push(commands[1]);
        let a3 = a2.push(commands[2]);
        assert(after =~= a3);
        assert(a3.drop_last() =~= a2);
        assert(a2.drop_last() =~= a1);
        assert(a1.drop_last() =~= before);
        assert(stroke_width_after(a1) == stroke_width_after(before));
        assert(stroke_width_after(a2) == stroke_width_after(a1));
        assert(stroke_width_after(a3) == stroke_width_after(a2));
    }
}

/// The colour of the symbol at a place in a row: red at the even places,
/// counted from 0, and blue at the odd ones.
pub open spec fn spec_alternating_color(index: int) -> SymbolColor {
    if index % 2 == 0 {
        SymbolColor::Red
    } else {
        SymbolColor::Blue
    }
}

/// The colour of the symbol at a place in a row.
pub fn alternating_color(index: usize) -> (color: SymbolColor)
    ensures
        color == spec_alternating_color(index as int),
{
    if index % 2 == 0 {
        SymbolColor::Red
    } else {
        SymbolColor::Blue
    }
}

/// How many of the first `count` places of a row have the colour given.
pub open spec fn places_of_color(count: int, color: SymbolColor) -> int
    decreases count,
{
    if count <= 0 {
        0
    } else {
        places_of_color(count - 1, color) + if spec_alternating_color(count - 1) == color {
            1int
        } else {
            0int
        }
    }
}

/// The colours of a row are balanced: of its first `count` places half are
/// red and half are blue, the odd one red.
pub proof fn lemma_alternation_balanced(count: int)
    requires
        count >= 0,
    ensures
        places_of_color(count, SymbolColor::Red) == (count + 1) / 2,
        places_of_color(count, SymbolColor::Blue) == count / 2,
    decreases count,
{
    if count > 0 {
        lemma_alternation_balanced(count - 1);
    }
}

/// Where the symbol at a place in a row stands: `index` steps to the right
/// of `start`.
pub open spec fn row_position(start: PointView, step: int, index: int) -> PointView {
    PointView { x: start.x + index * step, y: start.y }
}

/// Why the symbol at a place in a row is not drawn, if it is not: its
/// position does not fit in an `i64`, or the symbol is refused there.
pub open spec fn row_refusal(
    symbols: Seq<Symbol>,
    start: PointView,
    step: int,
    size_pt: int,
    index: int,
) -> Option<ConfigurationError> {
    let pos = row_position(start, step, index);
    if pos.x < i64::MIN || pos.x > i64::MAX {
        Some(ConfigurationError::Overflow)
    } else {
        symbol_refusal(symbols[index], pos, size_pt)
    }
}

/// What the first `count` symbols of a row paint, in their order.
pub open spec fn row_commands(
    symbols: Seq<Symbol>,
    font: FontHandle,
    start: PointView,
    step: int,
    size_pt: int,
    count: int,
) -> Seq<DrawCommandView>
    decreases count,
{
    if count <= 0 {
        Seq::<DrawCommandView>::empty()
    } else {
        row_commands(symbols, font, start, step, size_pt, count - 1) + symbol_commands(
            symbols[count - 1],
            font,
            row_position(start, step, count - 1),
            size_pt,
            spec_alternating_color(count - 1),
        )
    }
}

/// The first symbol of a row that could not be drawn, and why.
#[derive(Clone, Copy, Debug, PartialEq, Eq, Structural)]
pub struct RowError {
    /// The place of the symbol in the row, from 0.
    pub index: usize,
    pub error: ConfigurationError,
}

/// Draws symbols in a row from `start`, each `step` to the right of the one
/// before, all of one size, in alternating colours: red, blue, red, and so
/// on.
///
/// The row ends at the first symbol that cannot be drawn; the symbols before
/// it stay on the canvas.
pub fn draw_symbol_row(
    canvas: &mut Canvas,
    font: FontHandle,
    symbols: &Vec<Symbol>,
    start: Point,
    step: i64,
    size: i64,
) -> (r: Result<(), RowError>)
    ensures
        match r {
            Ok(_) => {
                &&& forall|i: int|
                    0 <= i < symbols.len() ==> #[trigger] row_refusal(
                        symbols@,
                        start@,
                        step as int,
                        size as int,
                        i,
                    ) is None
                &&& final(canvas)@ == old(canvas)@ + row_commands(
                    symbols@,
                    font,
                    start@,
                    step as int,
                    size as int,
                    symbols.len() as int,
                )
            },
            Err(e) => {
                &&& e.index < symbols.len()
                &&& forall|i: int|
                    0 <= i < e.index ==> #[trigger] row_refusal(
                        symbols@,
                        start@,
                        step as int,
                        size as int,
                        i,
                    ) is None
                &&& row_refusal(symbols@, start@, step as int, size as int, e.index as int)
                    == Some(e.error)
                &&& final(canvas)@ == old(canvas)@ + row_commands(
                    symbols@,
                    font,
                    start@,
                    step as int,
                    size as int,
                    e.index as int,
                )
            },
        },
{
    let n = symbols.len();
    let mut i: usize = 0;
    let mut x: i64 = start.x;
    assert(canvas@ =~= old(canvas)@ + row_commands(
        symbols@,
        font,
        start@,
        step as int,
        size as int,
        0,
    ));
    assert(0 * step == 0);
    while i < n
        invariant
            n == symbols.len(),
            i <= n,
            i < n ==> x == start.x + i * step,
            forall|j: int|
                0 <= j < i ==> #[trigger] row_refusal(
                    symbols@,
                    start@,
                    step as int,
                    size as int,
                    j,
                ) is None,
            canvas@ == old(canvas)@ + row_commands(
                symbols@,
                font,
                start@,
                step as int,
                size as int,
                i as int,
            ),
        decreases n - i,
    {
        let ghost before = canvas@;
        let pos = Point { x, y: start.y };
        assert(pos@ == row_position(start@, step as int, i as int));
        match draw_symbol(canvas, font, symbols[i], pos, size, alternating_color(i)) {
            Ok(_) => {},
            Err(error) => {
                return Err(RowError { index: i, error });
            },
        }
        assert(canvas@ =~= old(canvas)@ + row_commands(
            symbols@,
            font,
            start@,
            step as int,
            size as int,
            i + 1,
        ));
        i += 1;
        if i < n {
            assert(i * step == (i - 1) * step + step) by (nonlinear_arith);
            match x.checked_add(step) {
                Some(next) => {
                    x = next;
                },
                None => {
                    return Err(RowError { index: i, error: ConfigurationError::Overflow });
                },
            }
        }
    }
    Ok(())
}

} // verus!
