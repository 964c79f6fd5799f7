//! The catalogue of notation symbols: thirty identities, two colours, and
//! for each identity the way in which it is drawn.

use vstd::prelude::*;

verus! {

/// A notation symbol of an audiogram. Each shape comes plain and filled.
#[derive(Copy, Clone, Debug, PartialEq, Eq, Structural)]
pub enum Symbol {
    Square,
    SquareFilled,
    Triangle,
    TriangleFilled,
    Circle,
    CircleFilled,
    S,
    SFilled,
    U,
    UFilled,
    X,
    XFilled,
    A,
    AFilled,
    Greater,
    GreaterFilled,
    Less,
    LessFilled,
    LeftBracket,
    LeftBracketFilled,
    RightBracket,
    RightBracketFilled,
    Star,
    StarFilled,
    ArrowDownRight,
    ArrowDownRightFilled,
    ArrowDownLeft,
    ArrowDownLeftFilled,
    VT,
    VTFilled,
}

/// The two colours in which symbols are drawn.
#[derive(Copy, Clone, Debug, PartialEq, Eq, Structural)]
pub enum SymbolColor {
    Red,
    Blue,
}

/// A colour by its red, green and blue parts, each from 0 to 255.
#[derive(Copy, Clone, Debug, PartialEq, Eq, Structural)]
pub struct Rgb {
    pub r: u8,
    pub g: u8,
    pub b: u8,
}

/// A closed shape that can be filled.
#[derive(Copy, Clone, Debug, PartialEq, Eq, Structural)]
pub enum PolygonShape {
    Square,
    Triangle,
    Circle,
    Chevron { points_left: bool },
}

/// A shape made of open strokes.
#[derive(Copy, Clone, Debug, PartialEq, Eq, Structural)]
pub enum StrokeShape {
    Cross,
    Chevron { points_left: bool },
    Bracket { left: bool },
}

/// A symbol that is written with the font: a letter, a pair of letters, or a
/// single Unicode sign.
#[derive(Copy, Clone, Debug, PartialEq, Eq, Structural)]
pub enum Glyph {
    S,
    U,
    A,
    /// U+2606, the outlined star.
    StarOutline,
    /// U+2605, the solid star.
    StarSolid,
    /// U+2198, the arrow down and to the right.
    ArrowDownRight,
    /// U+2199, the arrow down and to the left.
    ArrowDownLeft,
    VT,
}

/// The way in which a symbol is drawn.
#[derive(Copy, Clone, Debug, PartialEq, Eq, Structural)]
pub enum RenderStrategy {
    /// A closed outline, filled for the filled symbol.
    Polygon(PolygonShape),
    /// Open strokes, heavier for the filled symbol.
    OpenStroke(StrokeShape),
    /// Text in the symbol font.
    GlyphText(Glyph),
}

impl SymbolColor {
    /// The colour itself: pure red, or pure blue.
    pub open spec fn rgb(self) -> Rgb {
        match self {
            SymbolColor::Red => Rgb { r: 255, g: 0, b: 0 },
            SymbolColor::Blue => Rgb { r: 0, g: 0, b: 255 },
        }
    }

    /// The colour with which the symbol is both filled and stroked.
    pub fn to_color(&self) -> (c: Rgb)
        ensures
            c == self.rgb(),
    {
        match self {
            SymbolColor::Red => Rgb { r: 255, g: 0, b: 0 },
            SymbolColor::Blue => Rgb { r: 0, g: 0, b: 255 },
        }
    }
}

impl Glyph {
    /// The characters that are written for the glyph.
    pub open spec fn spec_text(self) -> Seq<char> {
        match self {
            Glyph::S => seq!['S'],
            Glyph::U => seq!['U'],
            Glyph::A => seq!['A'],
            Glyph::StarOutline => seq!['\u{2606}'],
            Glyph::StarSolid => seq!['\u{2605}'],
            Glyph::ArrowDownRight => seq!['\u{2198}'],
            Glyph::ArrowDownLeft => seq!['\u{2199}'],
            Glyph::VT => seq!['V', 'T'],
        }
    }

    /// The text that is written for the glyph.
    pub fn text(self) -> (t: &'static str)
        ensures
            t@ == self.spec_text(),
    {
        proof {
            reveal_strlit("S");
            reveal_strlit("U");
            reveal_strlit("A");
            reveal_strlit("\u{2606}");
            reveal_strlit("\u{2605}");
            reveal_strlit("\u{2198}");
            reveal_strlit("\u{2199}");
            reveal_strlit("VT");
        }
        let t = match self {
            Glyph::S => "S",
            Glyph::U => "U",
            Glyph::A => "A",
            Glyph::StarOutline => "\u{2606}",
            Glyph::StarSolid => "\u{2605}",
            Glyph::ArrowDownRight => "\u{2198}",
            Glyph::ArrowDownLeft => "\u{2199}",
            Glyph::VT => "VT",
        };
        assert(t@ =~= self.spec_text());
        t
    }
}

impl Symbol {
    /// Whether the symbol is the filled one of its pair.
    pub open spec fn spec_is_filled(self) -> bool {
        match self {
            Symbol::SquareFilled
            | Symbol::TriangleFilled
            | Symbol::CircleFilled
            | Symbol::SFilled
            | Symbol::UFilled
            | Symbol::XFilled
            | Symbol::AFilled
            | Symbol::GreaterFilled
            | Symbol::LessFilled
            | Symbol::LeftBracketFilled
            | Symbol::RightBracketFilled
            | Symbol::StarFilled
            | Symbol::ArrowDownRightFilled
            | Symbol::ArrowDownLeftFilled
            | Symbol::VTFilled => true,
            _ => false,
        }
    }

    /// The way in which the symbol is drawn.
    ///
    /// Squares, triangles and circles are closed outlines. A chevron is a
    /// closed outline when filled and an open stroke otherwise. Crosses and
    /// brackets are open strokes. All others are written with the font; of
    /// those only the star has a sign of its own when filled.
    pub open spec fn spec_strategy(self) -> RenderStrategy {
        match self {
            Symbol::Square | Symbol::SquareFilled => RenderStrategy::Polygon(PolygonShape::Square),
            Symbol::Triangle | Symbol::TriangleFilled => RenderStrategy::Polygon(
                PolygonShape::Triangle,
            ),
            Symbol::Circle | Symbol::CircleFilled => RenderStrategy::Polygon(PolygonShape::Circle),
            Symbol::X | Symbol::XFilled => RenderStrategy::OpenStroke(StrokeShape::Cross),
            Symbol::Greater => RenderStrategy::OpenStroke(
                StrokeShape::Chevron { points_left: false },
            ),
            Symbol::GreaterFilled => RenderStrategy::Polygon(
                PolygonShape::Chevron { points_left: false },
            ),
            Symbol::Less => RenderStrategy::OpenStroke(StrokeShape::Chevron { points_left: true }),
            Symbol::LessFilled => RenderStrategy::Polygon(
                PolygonShape::Chevron { points_left: true },
            ),
            Symbol::LeftBracket | Symbol::LeftBracketFilled => RenderStrategy::OpenStroke(
                StrokeShape::Bracket { left: true },
            ),
            Symbol::RightBracket | Symbol::RightBracketFilled => RenderStrategy::OpenStroke(
                StrokeShape::Bracket { left: false },
            ),
            Symbol::S | Symbol::SFilled => RenderStrategy::GlyphText(Glyph::S),
            Symbol::U | Symbol::UFilled => RenderStrategy::GlyphText(Glyph::U),
            Symbol::A | Symbol::AFilled => RenderStrategy::GlyphText(Glyph::A),
            Symbol::Star => RenderStrategy::GlyphText(Glyph::StarOutline),
            Symbol::StarFilled => RenderStrategy::GlyphText(Glyph::StarSolid),
            Symbol::ArrowDownRight | Symbol::ArrowDownRightFilled => RenderStrategy::GlyphText(
                Glyph::ArrowDownRight,
            ),
            Symbol::ArrowDownLeft | Symbol::ArrowDownLeftFilled => RenderStrategy::GlyphText(
                Glyph::ArrowDownLeft,
            ),
            Symbol::VT | Symbol::VTFilled => RenderStrategy::GlyphText(Glyph::VT),
        }
    }

    /// The place of the symbol in the catalogue, from 0.
    pub open spec fn spec_position(self) -> int {
        match self {
            Symbol::Square => 0,
            Symbol::SquareFilled => 1,
            Symbol::Triangle => 2,
            Symbol::TriangleFilled => 3,
            Symbol::Circle => 4,
            Symbol::CircleFilled => 5,
            Symbol::S => 6,
            Symbol::SFilled => 7,
            Symbol::U => 8,
            Symbol::UFilled => 9,
            Symbol::X => 10,
            Symbol::XFilled => 11,
            Symbol::A => 12,
            Symbol::AFilled => 13,
            Symbol::Greater => 14,
            Symbol::GreaterFilled => 15,
            Symbol::Less => 16,
            Symbol::LessFilled => 17,
            Symbol::LeftBracket => 18,
            Symbol::LeftBracketFilled => 19,
            Symbol::RightBracket => 20,
            Symbol::RightBracketFilled => 21,
            Symbol::Star => 22,
            Symbol::StarFilled => 23,
            Symbol::ArrowDownRight => 24,
            Symbol::ArrowDownRightFilled => 25,
            Symbol::ArrowDownLeft => 26,
            Symbol::ArrowDownLeftFilled => 27,
            Symbol::VT => 28,
            Symbol::VTFilled => 29,
        }
    }

    /// Whether the symbol is the filled one of its pair.
    pub fn is_filled(self) -> (filled: bool)
        ensures
            filled == self.spec_is_filled(),
    {
        match self {
            Symbol::SquareFilled
            | Symbol::TriangleFilled
            | Symbol::CircleFilled
            | Symbol::SFilled
            | Symbol::UFilled
            | Symbol::XFilled
            | Symbol::AFilled
            | Symbol::GreaterFilled
            | Symbol::LessFilled
            | Symbol::LeftBracketFilled
            | Symbol::RightBracketFilled
            | Symbol::StarFilled
            | Symbol::ArrowDownRightFilled
            | Symbol::ArrowDownLeftFilled
            | Symbol::VTFilled => true,
            _ => false,
        }
    }

    /// The way in which the symbol is drawn.
    pub fn strategy(self) -> (s: RenderStrategy)
        ensures
            s == self.spec_strategy(),
    {
        match self {
            Symbol::Square | Symbol::SquareFilled => RenderStrategy::Polygon(PolygonShape::Square),
            Symbol::Triangle | Symbol::TriangleFilled => RenderStrategy::Polygon(
                PolygonShape::Triangle,
            ),
            Symbol::Circle | Symbol::CircleFilled => RenderStrategy::Polygon(PolygonShape::Circle),
            Symbol::X | Symbol::XFilled => RenderStrategy::OpenStroke(StrokeShape::Cross),
            Symbol::Greater => RenderStrategy::OpenStroke(
                StrokeShape::Chevron { points_left: false },
            ),
            Symbol::GreaterFilled => RenderStrategy::Polygon(
                PolygonShape::Chevron { points_left: false },
            ),
            Symbol::Less => RenderStrategy::OpenStroke(StrokeShape::Chevron { points_left: true }),
            Symbol::LessFilled => RenderStrategy::Polygon(
                PolygonShape::Chevron { points_left: true },
            ),
            Symbol::LeftBracket | Symbol::LeftBracketFilled => RenderStrategy::OpenStroke(
                StrokeShape::Bracket { left: true },
            ),
            Symbol::RightBracket | Symbol::RightBracketFilled => RenderStrategy::OpenStroke(
                StrokeShape::Bracket { left: false },
            ),
            Symbol::S | Symbol::SFilled => RenderStrategy::GlyphText(Glyph::S),
            Symbol::U | Symbol::UFilled => RenderStrategy::GlyphText(Glyph::U),
            Symbol::A | Symbol::AFilled => RenderStrategy::GlyphText(Glyph::A),
            Symbol::Star => RenderStrategy::GlyphText(Glyph::StarOutline),
            Symbol::StarFilled => RenderStrategy::GlyphText(Glyph::StarSolid),
            Symbol::ArrowDownRight | Symbol::ArrowDownRightFilled => RenderStrategy::GlyphText(
                Glyph::ArrowDownRight,
            ),
            Symbol::ArrowDownLeft | Symbol::ArrowDownLeftFilled => RenderStrategy::GlyphText(
                Glyph::ArrowDownLeft,
            ),
            Symbol::VT | Symbol::VTFilled => RenderStrategy::GlyphText(Glyph::VT),
        }
    }
}

/// The catalogue: every symbol once, each plain symbol followed by its
/// filled one.
pub open spec fn catalog() -> Seq<Symbol> {
    seq![
        Symbol::Square,
        Symbol::SquareFilled,
        Symbol::Triangle,
        Symbol::TriangleFilled,
        Symbol::Circle,
        Symbol::CircleFilled,
        Symbol::S,
        Symbol::SFilled,
        Symbol::U,
        Symbol::UFilled,
        Symbol::X,
        Symbol::XFilled,
        Symbol::A,
        Symbol::AFilled,
        Symbol::Greater,
        Symbol::GreaterFilled,
        Symbol::Less,
        Symbol::LessFilled,
        Symbol::LeftBracket,
        Symbol::LeftBracketFilled,
        Symbol::RightBracket,
        Symbol::RightBracketFilled,
        Symbol::Star,
        Symbol::StarFilled,
        Symbol::ArrowDownRight,
        Symbol::ArrowDownRightFilled,
        Symbol::ArrowDownLeft,
        Symbol::ArrowDownLeftFilled,
        Symbol::VT,
        Symbol::VTFilled,
    ]
}

/// The symbols of the catalogue, in its order.
pub fn all_symbols() -> (symbols: Vec<Symbol>)
    ensures
        symbols@ == catalog(),
{
    let mut symbols: Vec<Symbol> = Vec::new();
    symbols.push(Symbol::Square);
    symbols.push(Symbol::SquareFilled);
    symbols.push(Symbol::Triangle);
    symbols.push(Symbol::TriangleFilled);
    symbols.push(Symbol::Circle);
    symbols.push(Symbol::CircleFilled);
    symbols.push(Symbol::S);
    symbols.push(Symbol::SFilled);
    symbols.push(Symbol::U);
    symbols.push(Symbol::UFilled);
    symbols.push(Symbol::X);
    symbols.push(Symbol::XFilled);
    symbols.push(Symbol::A);
    symbols.push(Symbol::AFilled);
    symbols.push(Symbol::Greater);
    symbols.push(Symbol::GreaterFilled);
    symbols.push(Symbol::Less);
    symbols.push(Symbol::LessFilled);
    symbols.push(Symbol::LeftBracket);
    symbols.push(Symbol::LeftBracketFilled);
    symbols.push(Symbol::RightBracket);
    symbols.push(Symbol::RightBracketFilled);
    symbols.push(Symbol::Star);
    symbols.push(Symbol::StarFilled);
    symbols.push(Symbol::ArrowDownRight);
    symbols.push(Symbol::ArrowDownRightFilled);
    symbols.push(Symbol::ArrowDownLeft);
    symbols.push(Symbol::ArrowDownLeftFilled);
    symbols.push(Symbol::VT);
    symbols.push(Symbol::VTFilled);
    assert(symbols@ =~= catalog());
    symbols
}

/// The catalogue is total: it has thirty entries, every symbol stands in it
/// at its own place and nowhere else, and every symbol has its one strategy,
/// which is a closed outline, an open stroke or text. A symbol and its
/// filled one, which follows it, are drawn in the same way, except that the
/// open chevron becomes a closed one and the outlined star a solid one.
pub proof fn lemma_catalog_total(symbol: Symbol)
    ensures
        catalog().len() == 30,
        0 <= symbol.spec_position() < 30,
        catalog()[symbol.spec_position()] == symbol,
        forall|i: int| 0 <= i < 30 && catalog()[i] == symbol ==> i == symbol.spec_position(),
        symbol.spec_is_filled() <==> symbol.spec_position() % 2 == 1,
        symbol.spec_strategy() is Polygon || symbol.spec_strategy() is OpenStroke
            || symbol.spec_strategy() is GlyphText,
        !symbol.spec_is_filled() ==> {
            let filled = catalog()[symbol.spec_position() + 1];
            ||| filled.spec_strategy() == symbol.spec_strategy()
            ||| symbol.spec_strategy() matches RenderStrategy::OpenStroke(
                StrokeShape::Chevron { points_left },
            ) && filled.spec_strategy() == RenderStrategy::Polygon(
                PolygonShape::Chevron { points_left },
            )
            ||| symbol == Symbol::Star && filled == Symbol::StarFilled
        },
{
    let c = catalog();
    assert forall|i: int| 0 <= i < 30 && c[i] == symbol implies i == symbol.spec_position() by {
        lemma_place_of_entry(i);
    }
}

/// Each entry of the catalogue knows its place.
pub proof fn lemma_place_of_entry(i: int)
    requires
        0 <= i < 30,
    ensures
        catalog()[i].spec_position() == i,
{
}

} // verus!
