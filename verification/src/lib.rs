//! Vector shapes, notation symbols and caption placement for audiogram
//! reports, in exact integer arithmetic.
//!
//! Every length is a whole number of millionths of its unit: of a
//! millimetre for positions and extents on the page, of a point for font
//! sizes and stroke widths. Where a length is scaled, the result is rounded
//! to the nearest unit, a tie upwards; a half is rounded down. Outlines are
//! lists of anchor and control points, symbols are recorded on a [`Canvas`]
//! as a list of paint commands, and a caption is measured from the glyph
//! advances of its font.
//!
//! What is asked of the library and cannot be done is refused with a
//! [`ConfigurationError`], which says on which arguments; nothing of the
//! library's own panics. Font files are read by `owned_ttf_parser`, which is
//! not verified: the library keeps from it the files and faces on which it
//! is known to fail, and refuses them with a [`FontError`].

pub mod arc;
pub mod canvas;
pub mod catalog;
pub mod error;
pub mod font;
pub mod outline;
pub mod path;
pub mod polygon;
pub mod sfnt;
pub mod shapes;
pub mod text;
pub mod units;

pub use arc::{arc_handle, quarter_arc, Quadrant};
pub use canvas::{Canvas, DrawCommand, FontHandle, NEUTRAL_STROKE_WIDTH};
pub use catalog::{
    all_symbols, Glyph, PolygonShape, RenderStrategy, Rgb, StrokeShape, Symbol, SymbolColor,
};
pub use error::ConfigurationError;
pub use outline::{capsule, circle, rounded_rect};
pub use path::{Bounds, PaintMode, Path, PathPoint, Point};
pub use polygon::{bracket, chevron, cross, square, triangle};
pub use shapes::{
    alternating_color, draw_angle, draw_bracket, draw_circle, draw_glyph, draw_square,
    draw_symbol, draw_symbol_row, draw_triangle, draw_x, RowError, HEAVY_STROKE, THIN_STROKE,
};
pub use text::{
    center_in_box, face_metrics, load_metrics, measure, measure_in_face, metrics_of_parsed,
    FontError, GlyphAdvance, GlyphMetrics, MeasureError, TextExtent,
};
pub use units::{mm_to_pt, pt_to_mm, MM_TO_PT_LIMIT, SCALE};
