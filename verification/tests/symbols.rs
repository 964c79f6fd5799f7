use audiogram::shapes::{draw_symbol, Symbol, SymbolColor};
use audiogram::{
    all_symbols, alternating_color, bracket, chevron, cross, draw_angle, draw_bracket,
    draw_circle, draw_glyph, draw_square, draw_symbol_row, draw_triangle, draw_x, square,
    triangle, Canvas, ConfigurationError, DrawCommand, FontHandle, Glyph, PaintMode, Path,
    PathPoint, Point, PolygonShape, RenderStrategy, Rgb, RowError, StrokeShape, HEAVY_STROKE,
    NEUTRAL_STROKE_WIDTH, THIN_STROKE,
};

const RED: Rgb = Rgb { r: 255, g: 0, b: 0 };
const BLUE: Rgb = Rgb { r: 0, g: 0, b: 255 };
const TEN_POINT: i64 = 10_000_000;
// ten points in page units, its half, and six tenths of it
const D: i64 = 3_527_778;
const HALF: i64 = 1_763_889;
const ARM: i64 = 2_116_667;

fn a(x: i64, y: i64) -> PathPoint {
    PathPoint { point: Point { x, y }, control: false }
}

fn at() -> Point {
    Point { x: 65_000_000, y: 90_000_000 }
}

fn drawn(symbol: Symbol, color: SymbolColor) -> Vec<DrawCommand> {
    let mut canvas = Canvas::new();
    draw_symbol(&mut canvas, FontHandle(3), symbol, at(), TEN_POINT, color).unwrap();
    canvas.commands
}

fn text(s: &str) -> DrawCommand {
    DrawCommand::AddText {
        text: s.to_string(),
        font: FontHandle(3),
        size_pt: TEN_POINT,
        position: at(),
    }
}

fn stroke_width_after(commands: &[DrawCommand]) -> i64 {
    let mut width = NEUTRAL_STROKE_WIDTH;
    for command in commands {
        if let DrawCommand::SetStrokeWidth(w) = command {
            width = *w;
        }
    }
    width
}

#[test]
fn colors_are_pure_red_and_pure_blue() {
    assert_eq!(SymbolColor::Red.to_color(), RED);
    assert_eq!(SymbolColor::Blue.to_color(), BLUE);
}

#[test]
fn stroke_widths() {
    assert_eq!(THIN_STROKE, 500_000);
    assert_eq!(HEAVY_STROKE, 1_000_000);
    assert_eq!(NEUTRAL_STROKE_WIDTH, 0);
}

#[test]
fn catalog_has_thirty_symbols_each_once() {
    let symbols = all_symbols();
    assert_eq!(symbols.len(), 30);
    for i in 0..symbols.len() {
        for j in 0..i {
            assert_ne!(symbols[i], symbols[j]);
        }
    }
    assert_eq!(symbols[0], Symbol::Square);
    assert_eq!(symbols[11], Symbol::XFilled);
    assert_eq!(symbols[29], Symbol::VTFilled);
}

#[test]
fn catalog_pairs_each_symbol_with_its_filled_one() {
    let symbols = all_symbols();
    for i in 0..symbols.len() {
        assert_eq!(symbols[i].is_filled(), i % 2 == 1);
    }
}

#[test]
fn every_symbol_has_its_strategy() {
    let expected = vec![
        (Symbol::Square, RenderStrategy::Polygon(PolygonShape::Square)),
        (Symbol::SquareFilled, RenderStrategy::Polygon(PolygonShape::Square)),
        (Symbol::Triangle, RenderStrategy::Polygon(PolygonShape::Triangle)),
        (Symbol::TriangleFilled, RenderStrategy::Polygon(PolygonShape::Triangle)),
        (Symbol::Circle, RenderStrategy::Polygon(PolygonShape::Circle)),
        (Symbol::CircleFilled, RenderStrategy::Polygon(PolygonShape::Circle)),
        (Symbol::S, RenderStrategy::GlyphText(Glyph::S)),
        (Symbol::SFilled, RenderStrategy::GlyphText(Glyph::S)),
        (Symbol::U, RenderStrategy::GlyphText(Glyph::U)),
        (Symbol::UFilled, RenderStrategy::GlyphText(Glyph::U)),
        (Symbol::X, RenderStrategy::OpenStroke(StrokeShape::Cross)),
        (Symbol::XFilled, RenderStrategy::OpenStroke(StrokeShape::Cross)),
        (Symbol::A, RenderStrategy::GlyphText(Glyph::A)),
        (Symbol::AFilled, RenderStrategy::GlyphText(Glyph::A)),
        (Symbol::Greater, RenderStrategy::OpenStroke(StrokeShape::Chevron { points_left: false })),
        (Symbol::GreaterFilled, RenderStrategy::Polygon(PolygonShape::Chevron { points_left: false })),
        (Symbol::Less, RenderStrategy::OpenStroke(StrokeShape::Chevron { points_left: true })),
        (Symbol::LessFilled, RenderStrategy::Polygon(PolygonShape::Chevron { points_left: true })),
        (Symbol::LeftBracket, RenderStrategy::OpenStroke(StrokeShape::Bracket { left: true })),
        (Symbol::LeftBracketFilled, RenderStrategy::OpenStroke(StrokeShape::Bracket { left: true })),
        (Symbol::RightBracket, RenderStrategy::OpenStroke(StrokeShape::Bracket { left: false })),
        (Symbol::RightBracketFilled, RenderStrategy::OpenStroke(StrokeShape::Bracket { left: false })),
        (Symbol::Star, RenderStrategy::GlyphText(Glyph::StarOutline)),
        (Symbol::StarFilled, RenderStrategy::GlyphText(Glyph::StarSolid)),
        (Symbol::ArrowDownRight, RenderStrategy::GlyphText(Glyph::ArrowDownRight)),
        (Symbol::ArrowDownRightFilled, RenderStrategy::GlyphText(Glyph::ArrowDownRight)),
        (Symbol::ArrowDownLeft, RenderStrategy::GlyphText(Glyph::ArrowDownLeft)),
        (Symbol::ArrowDownLeftFilled, RenderStrategy::GlyphText(Glyph::ArrowDownLeft)),
        (Symbol::VT, RenderStrategy::GlyphText(Glyph::VT)),
        (Symbol::VTFilled, RenderStrategy::GlyphText(Glyph::VT)),
    ];
    let symbols = all_symbols();
    assert_eq!(expected.len(), symbols.len());
    for (i, (symbol, strategy)) in expected.into_iter().enumerate() {
        assert_eq!(symbols[i], symbol);
        assert_eq!(symbol.strategy(), strategy);
    }
}

#[test]
fn glyph_texts() {
    assert_eq!(Glyph::S.text(), "S");
    assert_eq!(Glyph::U.text(), "U");
    assert_eq!(Glyph::A.text(), "A");
    assert_eq!(Glyph::StarOutline.text(), "\u{2606}");
    assert_eq!(Glyph::StarSolid.text(), "\u{2605}");
    assert_eq!(Glyph::ArrowDownRight.text(), "\u{2198}");
    assert_eq!(Glyph::ArrowDownLeft.text(), "\u{2199}");
    assert_eq!(Glyph::VT.text(), "VT");
}

#[test]
fn square_outline() {
    let path = square(Point { x: 1, y: 2 }, TEN_POINT, false).unwrap();
    let points = vec![a(1, 2), a(1 + D, 2), a(1 + D, 2 + D), a(1, 2 + D)];
    assert_eq!(path, Path { points, closed: true, mode: PaintMode::Stroke });
}

#[test]
fn triangle_outline() {
    let path = triangle(Point { x: 1, y: 2 }, TEN_POINT, true).unwrap();
    let points = vec![a(1, 2), a(1 + HALF, 2 + D), a(1 + D, 2)];
    assert_eq!(path, Path { points, closed: true, mode: PaintMode::FillStroke });
}

#[test]
fn chevron_outlines() {
    let o = Point { x: 1, y: 2 };
    let left = chevron(o, TEN_POINT, true, false).unwrap();
    let points = vec![a(1 + D, 2), a(1, 2 + HALF), a(1 + D, 2 + D)];
    assert_eq!(left, Path { points, closed: false, mode: PaintMode::Stroke });
    let right = chevron(o, TEN_POINT, false, true).unwrap();
    let points = vec![a(1, 2), a(1 + D, 2 + HALF), a(1, 2 + D)];
    assert_eq!(right, Path { points, closed: true, mode: PaintMode::FillStroke });
}

#[test]
fn bracket_outlines() {
    let o = Point { x: 1, y: 2 };
    let left = bracket(o, TEN_POINT, true).unwrap();
    let points = vec![a(1 + ARM, 2), a(1, 2), a(1, 2 + D), a(1 + ARM, 2 + D)];
    assert_eq!(left, Path { points, closed: false, mode: PaintMode::Stroke });
    let right = bracket(o, TEN_POINT, false).unwrap();
    let points = vec![a(1 + D - ARM, 2), a(1 + D, 2), a(1 + D, 2 + D), a(1 + D - ARM, 2 + D)];
    assert_eq!(right, Path { points, closed: false, mode: PaintMode::Stroke });
}

#[test]
fn cross_strokes() {
    let (rising, falling) = cross(Point { x: 1, y: 2 }, TEN_POINT).unwrap();
    assert_eq!(
        rising,
        Path { points: vec![a(1, 2), a(1 + D, 2 + D)], closed: false, mode: PaintMode::Stroke }
    );
    assert_eq!(
        falling,
        Path { points: vec![a(1 + D, 2), a(1, 2 + D)], closed: false, mode: PaintMode::Stroke }
    );
}

#[test]
fn shapes_refuse_sizes_that_come_to_nothing() {
    let o = Point { x: 0, y: 0 };
    assert_eq!(square(o, 0, false), Err(ConfigurationError::NonPositiveSize));
    assert_eq!(square(o, -TEN_POINT, false), Err(ConfigurationError::NonPositiveSize));
    assert_eq!(triangle(o, 1, false), Err(ConfigurationError::NonPositiveSize));
    assert_eq!(chevron(o, 0, true, true), Err(ConfigurationError::NonPositiveSize));
    assert_eq!(bracket(o, -1, true), Err(ConfigurationError::NonPositiveSize));
    assert_eq!(cross(o, 0), Err(ConfigurationError::NonPositiveSize));
    assert!(square(o, 2, false).is_ok());
}

#[test]
fn shapes_refuse_what_does_not_fit() {
    let far = Point { x: i64::MAX - D + 1, y: 0 };
    assert_eq!(square(far, TEN_POINT, false), Err(ConfigurationError::Overflow));
    assert_eq!(bracket(far, TEN_POINT, false), Err(ConfigurationError::Overflow));
    let near = Point { x: i64::MAX - D, y: i64::MAX - D };
    assert!(square(near, TEN_POINT, false).is_ok());
    assert!(cross(near, TEN_POINT).is_ok());
}

#[test]
fn a_square_sets_both_colors_and_paints() {
    let o = at();
    let path = square(o, TEN_POINT, false).unwrap();
    assert_eq!(
        drawn(Symbol::Square, SymbolColor::Red),
        vec![
            DrawCommand::SetFillColor(RED),
            DrawCommand::SetStrokeColor(RED),
            DrawCommand::AddPath(path),
        ]
    );
    let filled = square(o, TEN_POINT, true).unwrap();
    assert_eq!(filled.mode, PaintMode::FillStroke);
    assert_eq!(
        drawn(Symbol::SquareFilled, SymbolColor::Blue),
        vec![
            DrawCommand::SetFillColor(BLUE),
            DrawCommand::SetStrokeColor(BLUE),
            DrawCommand::AddPath(filled),
        ]
    );
}

#[test]
fn triangle_and_circle_symbols() {
    let o = at();
    assert_eq!(
        drawn(Symbol::TriangleFilled, SymbolColor::Red)[2],
        DrawCommand::AddPath(triangle(o, TEN_POINT, true).unwrap())
    );
    assert_eq!(
        drawn(Symbol::Triangle, SymbolColor::Red)[2],
        DrawCommand::AddPath(triangle(o, TEN_POINT, false).unwrap())
    );
    let round = audiogram::circle(o, D, false).unwrap();
    assert_eq!(round.points.len(), 13);
    assert_eq!(
        drawn(Symbol::Circle, SymbolColor::Blue),
        vec![
            DrawCommand::SetFillColor(BLUE),
            DrawCommand::SetStrokeColor(BLUE),
            DrawCommand::AddPath(round),
        ]
    );
    assert_eq!(
        drawn(Symbol::CircleFilled, SymbolColor::Blue)[2],
        DrawCommand::AddPath(audiogram::circle(o, D, true).unwrap())
    );
}

#[test]
fn a_cross_sets_its_width_and_sets_it_back() {
    let (rising, falling) = cross(at(), TEN_POINT).unwrap();
    assert_eq!(
        drawn(Symbol::X, SymbolColor::Red),
        vec![
            DrawCommand::SetStrokeColor(RED),
            DrawCommand::SetStrokeWidth(500_000),
            DrawCommand::AddPath(rising.clone()),
            DrawCommand::AddPath(falling.clone()),
            DrawCommand::SetStrokeWidth(0),
        ]
    );
    assert_eq!(
        drawn(Symbol::XFilled, SymbolColor::Red),
        vec![
            DrawCommand::SetStrokeColor(RED),
            DrawCommand::SetStrokeWidth(1_000_000),
            DrawCommand::AddPath(rising),
            DrawCommand::AddPath(falling),
            DrawCommand::SetStrokeWidth(0),
        ]
    );
}

#[test]
fn chevron_symbols() {
    let o = at();
    assert_eq!(
        drawn(Symbol::Greater, SymbolColor::Blue),
        vec![
            DrawCommand::SetStrokeColor(BLUE),
            DrawCommand::SetFillColor(BLUE),
            DrawCommand::SetStrokeWidth(500_000),
            DrawCommand::AddPath(chevron(o, TEN_POINT, false, false).unwrap()),
            DrawCommand::SetStrokeWidth(0),
        ]
    );
    assert_eq!(
        drawn(Symbol::GreaterFilled, SymbolColor::Blue),
        vec![
            DrawCommand::SetStrokeColor(BLUE),
            DrawCommand::SetFillColor(BLUE),
            DrawCommand::SetStrokeWidth(1_000_000),
            DrawCommand::AddPath(chevron(o, TEN_POINT, false, true).unwrap()),
            DrawCommand::SetStrokeWidth(0),
        ]
    );
    assert_eq!(
        drawn(Symbol::Less, SymbolColor::Red)[3],
        DrawCommand::AddPath(chevron(o, TEN_POINT, true, false).unwrap())
    );
    assert_eq!(
        drawn(Symbol::LessFilled, SymbolColor::Red)[3],
        DrawCommand::AddPath(chevron(o, TEN_POINT, true, true).unwrap())
    );
}

#[test]
fn bracket_symbols() {
    let o = at();
    assert_eq!(
        drawn(Symbol::LeftBracket, SymbolColor::Red),
        vec![
            DrawCommand::SetStrokeColor(RED),
            DrawCommand::SetStrokeWidth(500_000),
            DrawCommand::AddPath(bracket(o, TEN_POINT, true).unwrap()),
            DrawCommand::SetStrokeWidth(0),
        ]
    );
    assert_eq!(
        drawn(Symbol::RightBracketFilled, SymbolColor::Red),
        vec![
            DrawCommand::SetStrokeColor(RED),
            DrawCommand::SetStrokeWidth(1_000_000),
            DrawCommand::AddPath(bracket(o, TEN_POINT, false).unwrap()),
            DrawCommand::SetStrokeWidth(0),
        ]
    );
    assert_eq!(
        drawn(Symbol::LeftBracketFilled, SymbolColor::Red)[2],
        drawn(Symbol::LeftBracket, SymbolColor::Red)[2]
    );
    assert_eq!(
        drawn(Symbol::RightBracket, SymbolColor::Red)[2],
        DrawCommand::AddPath(bracket(o, TEN_POINT, false).unwrap())
    );
}

#[test]
fn text_symbols() {
    let cases = vec![
        (Symbol::S, "S"),
        (Symbol::SFilled, "S"),
        (Symbol::U, "U"),
        (Symbol::UFilled, "U"),
        (Symbol::A, "A"),
        (Symbol::AFilled, "A"),
        (Symbol::Star, "\u{2606}"),
        (Symbol::StarFilled, "\u{2605}"),
        (Symbol::ArrowDownRight, "\u{2198}"),
        (Symbol::ArrowDownRightFilled, "\u{2198}"),
        (Symbol::ArrowDownLeft, "\u{2199}"),
        (Symbol::ArrowDownLeftFilled, "\u{2199}"),
        (Symbol::VT, "VT"),
        (Symbol::VTFilled, "VT"),
    ];
    for (symbol, s) in cases {
        assert_eq!(
            drawn(symbol, SymbolColor::Blue),
            vec![DrawCommand::SetFillColor(BLUE), DrawCommand::SetStrokeColor(BLUE), text(s)]
        );
    }
}

#[test]
fn the_helpers_draw_what_draw_symbol_draws() {
    let o = at();
    let f = FontHandle(3);
    let mut canvas = Canvas::new();
    draw_square(&mut canvas, o, TEN_POINT, true, SymbolColor::Red).unwrap();
    assert_eq!(canvas.commands, drawn(Symbol::SquareFilled, SymbolColor::Red));
    let mut canvas = Canvas::new();
    draw_triangle(&mut canvas, o, TEN_POINT, false, SymbolColor::Red).unwrap();
    assert_eq!(canvas.commands, drawn(Symbol::Triangle, SymbolColor::Red));
    let mut canvas = Canvas::new();
    draw_circle(&mut canvas, o, TEN_POINT, true, SymbolColor::Blue).unwrap();
    assert_eq!(canvas.commands, drawn(Symbol::CircleFilled, SymbolColor::Blue));
    let mut canvas = Canvas::new();
    draw_x(&mut canvas, o, TEN_POINT, true, SymbolColor::Blue).unwrap();
    assert_eq!(canvas.commands, drawn(Symbol::XFilled, SymbolColor::Blue));
    let mut canvas = Canvas::new();
    draw_angle(&mut canvas, o, TEN_POINT, true, false, SymbolColor::Blue).unwrap();
    assert_eq!(canvas.commands, drawn(Symbol::Less, SymbolColor::Blue));
    let mut canvas = Canvas::new();
    draw_bracket(&mut canvas, o, TEN_POINT, false, true, SymbolColor::Red).unwrap();
    assert_eq!(canvas.commands, drawn(Symbol::RightBracketFilled, SymbolColor::Red));
    let mut canvas = Canvas::new();
    draw_glyph(&mut canvas, f, Glyph::VT, o, TEN_POINT, SymbolColor::Red).unwrap();
    assert_eq!(canvas.commands, drawn(Symbol::VT, SymbolColor::Red));
}

#[test]
fn a_refused_symbol_leaves_the_canvas_as_it_was() {
    let mut canvas = Canvas::new();
    canvas.set_stroke_width(7);
    let before = canvas.clone();
    for symbol in all_symbols() {
        assert_eq!(
            draw_symbol(&mut canvas, FontHandle(0), symbol, at(), 0, SymbolColor::Red),
            Err(ConfigurationError::NonPositiveSize)
        );
        assert_eq!(canvas, before);
    }
    let far = Point { x: 0, y: i64::MAX };
    assert_eq!(
        draw_symbol(&mut canvas, FontHandle(0), Symbol::Circle, far, TEN_POINT, SymbolColor::Red),
        Err(ConfigurationError::Overflow)
    );
    assert_eq!(canvas, before);
    // text has no extent of its own
    assert!(
        draw_symbol(&mut canvas, FontHandle(0), Symbol::VT, far, 1, SymbolColor::Red).is_ok()
    );
    assert_eq!(
        draw_symbol(&mut canvas, FontHandle(0), Symbol::Square, at(), 1, SymbolColor::Red),
        Err(ConfigurationError::NonPositiveSize)
    );
}

#[test]
fn symbols_add_to_what_is_on_the_canvas() {
    let mut canvas = Canvas::new();
    draw_symbol(&mut canvas, FontHandle(3), Symbol::X, at(), TEN_POINT, SymbolColor::Red).unwrap();
    draw_symbol(&mut canvas, FontHandle(3), Symbol::S, at(), TEN_POINT, SymbolColor::Blue)
        .unwrap();
    let mut expected = drawn(Symbol::X, SymbolColor::Red);
    expected.extend(drawn(Symbol::S, SymbolColor::Blue));
    assert_eq!(canvas.commands, expected);
}

#[test]
fn every_symbol_leaves_a_neutral_stroke_width() {
    for symbol in all_symbols() {
        let commands = drawn(symbol, SymbolColor::Red);
        assert_eq!(stroke_width_after(&commands), NEUTRAL_STROKE_WIDTH);
    }
    // a width set before stays for symbols that set none
    let mut canvas = Canvas::new();
    canvas.set_stroke_width(7);
    draw_symbol(&mut canvas, FontHandle(0), Symbol::Square, at(), TEN_POINT, SymbolColor::Red)
        .unwrap();
    assert_eq!(stroke_width_after(&canvas.commands), 7);
    draw_symbol(&mut canvas, FontHandle(0), Symbol::Less, at(), TEN_POINT, SymbolColor::Red)
        .unwrap();
    assert_eq!(stroke_width_after(&canvas.commands), 0);
}

#[test]
fn colors_alternate_from_red() {
    assert_eq!(alternating_color(0), SymbolColor::Red);
    assert_eq!(alternating_color(1), SymbolColor::Blue);
    assert_eq!(alternating_color(28), SymbolColor::Red);
    assert_eq!(alternating_color(29), SymbolColor::Blue);
    assert_eq!(alternating_color(usize::MAX), SymbolColor::Blue);
}

#[test]
fn a_row_of_thirty_symbols_is_half_red_and_half_blue() {
    let symbols = all_symbols();
    let start = Point { x: 65_000_000, y: 90_000_000 };
    let step = 6_000_000;
    let mut canvas = Canvas::new();
    assert_eq!(draw_symbol_row(&mut canvas, FontHandle(3), &symbols, start, step, TEN_POINT), Ok(()));

    // one by one, in order, red at the even places
    let mut expected = Canvas::new();
    let (mut reds, mut blues) = (0, 0);
    for (i, symbol) in symbols.iter().enumerate() {
        let color = if i % 2 == 0 { SymbolColor::Red } else { SymbolColor::Blue };
        match color {
            SymbolColor::Red => reds += 1,
            SymbolColor::Blue => blues += 1,
        }
        let pos = Point { x: start.x + i as i64 * step, y: start.y };
        draw_symbol(&mut expected, FontHandle(3), *symbol, pos, TEN_POINT, color).unwrap();
    }
    assert_eq!((reds, blues), (15, 15));
    assert_eq!(canvas, expected);

    // every symbol sets its stroke colour once
    let strokes: Vec<Rgb> = canvas
        .commands
        .iter()
        .filter_map(|c| match c {
            DrawCommand::SetStrokeColor(rgb) => Some(*rgb),
            _ => None,
        })
        .collect();
    assert_eq!(strokes.len(), 30);
    for (i, rgb) in strokes.iter().enumerate() {
        assert_eq!(*rgb, if i % 2 == 0 { RED } else { BLUE });
    }
    assert_eq!(strokes.iter().filter(|c| **c == RED).count(), 15);
    assert_eq!(strokes.iter().filter(|c| **c == BLUE).count(), 15);
    // no other colour is ever set
    for command in &canvas.commands {
        if let DrawCommand::SetFillColor(rgb) = command {
            assert!(*rgb == RED || *rgb == BLUE);
        }
    }
}

#[test]
fn a_row_stops_at_the_first_symbol_that_is_refused() {
    let symbols = vec![Symbol::S, Symbol::Square, Symbol::X];
    let start = Point { x: i64::MAX - 5_000_000, y: 0 };
    let mut canvas = Canvas::new();
    // the square at the second place does not fit
    assert_eq!(
        draw_symbol_row(&mut canvas, FontHandle(0), &symbols, start, 2_000_000, TEN_POINT),
        Err(RowError { index: 1, error: ConfigurationError::Overflow })
    );
    let mut expected = Canvas::new();
    draw_symbol(&mut expected, FontHandle(0), Symbol::S, start, TEN_POINT, SymbolColor::Red)
        .unwrap();
    assert_eq!(canvas, expected);

    // the position of the second place does not fit
    let mut canvas = Canvas::new();
    assert_eq!(
        draw_symbol_row(&mut canvas, FontHandle(0), &symbols, start, 6_000_000, TEN_POINT),
        Err(RowError { index: 1, error: ConfigurationError::Overflow })
    );
    assert_eq!(canvas, expected);

    let mut canvas = Canvas::new();
    assert_eq!(
        draw_symbol_row(&mut canvas, FontHandle(0), &symbols, start, 0, 0),
        Err(RowError { index: 0, error: ConfigurationError::NonPositiveSize })
    );
    assert_eq!(canvas, Canvas::new());
}

#[test]
fn a_row_may_run_to_the_left_and_may_be_empty() {
    let mut canvas = Canvas::new();
    assert_eq!(
        draw_symbol_row(&mut canvas, FontHandle(0), &vec![], Point { x: 0, y: 0 }, 5, TEN_POINT),
        Ok(())
    );
    assert_eq!(canvas, Canvas::new());
    let symbols = vec![Symbol::Square, Symbol::Square];
    draw_symbol_row(&mut canvas, FontHandle(0), &symbols, Point { x: 0, y: 0 }, -9, TEN_POINT)
        .unwrap();
    assert_eq!(canvas.commands[5], DrawCommand::AddPath(square(Point { x: -9, y: 0 }, TEN_POINT, false).unwrap()));
}

#[test]
fn canvas_records_in_order() {
    let mut canvas = Canvas::new();
    assert!(canvas.commands.is_empty());
    canvas.set_fill_color(RED);
    canvas.set_stroke_color(BLUE);
    canvas.set_stroke_width(250_000);
    let path = Path { points: vec![a(0, 0), a(1, 1)], closed: false, mode: PaintMode::Stroke };
    canvas.add_path(path.clone());
    canvas.add_text("Jane Doe", FontHandle(1), TEN_POINT, Point { x: 4, y: 5 });
    canvas.record(DrawCommand::SetStrokeWidth(0));
    assert_eq!(
        canvas.commands,
        vec![
            DrawCommand::SetFillColor(RED),
            DrawCommand::SetStrokeColor(BLUE),
            DrawCommand::SetStrokeWidth(250_000),
            DrawCommand::AddPath(path),
            DrawCommand::AddText {
                text: "Jane Doe".to_string(),
                font: FontHandle(1),
                size_pt: TEN_POINT,
                position: Point { x: 4, y: 5 },
            },
            DrawCommand::SetStrokeWidth(0),
        ]
    );
}
