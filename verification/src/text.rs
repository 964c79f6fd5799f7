//! Measuring a caption from the glyph advances of its font, and placing it
//! in the middle of a box.
//!
//! A character for which the font has no advance counts as having none: the
//! measure of a caption with such characters is a best effort, not its true
//! width.

use vstd::prelude::*;
use owned_ttf_parser::{FaceParsingError, OwnedFace};
use crate::error::ConfigurationError;
use crate::font::{
    ascender, descender, face_ascender, face_descender, face_glyph_hor_advance,
    face_glyph_index, face_hhea_descender, face_units_per_em, glyph_hor_advance, glyph_index,
    hhea_descender, parse_face, parsed_face, units_per_em,
};
use crate::sfnt::{counts_every_table, counts_every_table_record};
use crate::path::{Point, PointView};
use crate::units::{half, mul_div_round, pt_to_mm, round_div, spec_pt_to_mm};

verus! {

/// The horizontal advance of one character, in font units.
#[derive(Clone, Copy, Debug, PartialEq, Eq, Structural)]
pub struct GlyphAdvance {
    pub ch: char,
    pub advance: u16,
}

/// What a caption's measure needs of a font: the units to the em, the
/// ascender and the descender, and the advances of its characters, all in
/// font units. Where a character stands in the table twice, its last entry
/// counts.
#[derive(Clone, Debug, PartialEq, Eq)]
pub struct GlyphMetrics {
    pub units_per_em: u16,
    pub ascender: i16,
    pub descender: i16,
    pub advances: Vec<GlyphAdvance>,
}

/// [`GlyphMetrics`] with its table as a map.
pub struct GlyphMetricsView {
    pub units_per_em: int,
    pub ascender: int,
    pub descender: int,
    pub advances: Map<char, int>,
}

/// The advance that a table has for a character: that of its last entry for
/// it.
pub open spec fn lookup(entries: Seq<GlyphAdvance>, ch: char) -> Option<int>
    decreases entries.len(),
{
    if entries.len() == 0 {
        None
    } else if entries.last().ch == ch {
        Some(entries.last().advance as int)
    } else {
        lookup(entries.drop_last(), ch)
    }
}

/// A table as a map from its characters to their advances.
pub open spec fn advance_map(entries: Seq<GlyphAdvance>) -> Map<char, int> {
    Map::new(|ch: char| lookup(entries, ch) is Some, |ch: char| lookup(entries, ch)->0)
}

impl View for GlyphMetrics {
    type V = GlyphMetricsView;

    open spec fn view(&self) -> GlyphMetricsView {
        GlyphMetricsView {
            units_per_em: self.units_per_em as int,
            ascender: self.ascender as int,
            descender: self.descender as int,
            advances: advance_map(self.advances@),
        }
    }
}

/// The advance of a character: what the table has for it, and nothing where
/// the table has none.
pub open spec fn advance_of(advances: Map<char, int>, ch: char) -> int {
    if advances.contains_key(ch) {
        advances[ch]
    } else {
        0
    }
}

/// The sum of the advances of the characters of a caption.
pub open spec fn total_advance(advances: Map<char, int>, caption: Seq<char>) -> int
    decreases caption.len(),
{
    if caption.len() == 0 {
        0
    } else {
        total_advance(advances, caption.drop_last()) + advance_of(advances, caption.last())
    }
}

/// A measure in font units as a length in points at a font size:
/// `units / units_per_em * size_pt`, rounded to the nearest unit.
pub open spec fn at_size(units: int, units_per_em: int, size_pt: int) -> int {
    round_div(units * size_pt, units_per_em)
}

/// The width of a caption in points.
pub open spec fn width_pt(caption: Seq<char>, metrics: GlyphMetricsView, size_pt: int) -> int {
    at_size(total_advance(metrics.advances, caption), metrics.units_per_em, size_pt)
}

/// The height of a line in points, from the descender to the ascender.
pub open spec fn height_pt(metrics: GlyphMetricsView, size_pt: int) -> int {
    at_size(metrics.ascender - metrics.descender, metrics.units_per_em, size_pt)
}

/// The depth of the descender below the baseline in points.
pub open spec fn descent_pt(metrics: GlyphMetricsView, size_pt: int) -> int {
    at_size(-metrics.descender, metrics.units_per_em, size_pt)
}

/// Whether an integer fits in an `i64`.
pub open spec fn fits_i64(v: int) -> bool {
    i64::MIN <= v <= i64::MAX
}

/// Why [`measure`] gives no measure for its arguments, if it gives none: the
/// font size is not positive or the font counts no units to the em; or the
/// sum of the advances, or one of the three measures in points, does not fit
/// in an `i64`.
pub open spec fn measure_refusal(
    caption: Seq<char>,
    metrics: GlyphMetricsView,
    size_pt: int,
) -> Option<ConfigurationError> {
    if size_pt <= 0 || metrics.units_per_em <= 0 {
        Some(ConfigurationError::NonPositiveSize)
    } else if !fits_i64(total_advance(metrics.advances, caption)) || !fits_i64(
        width_pt(caption, metrics, size_pt),
    ) || !fits_i64(height_pt(metrics, size_pt)) || !fits_i64(descent_pt(metrics, size_pt)) {
        Some(ConfigurationError::Overflow)
    } else {
        None
    }
}

/// The measure of a caption on the page, in millionths of a millimetre.
#[derive(Clone, Copy, Debug, PartialEq, Eq, Structural)]
pub struct TextExtent {
    /// The sum of the advances of the caption.
    pub width: i64,
    /// The height of the line, from the descender to the ascender.
    pub height: i64,
    /// The depth of the descender below the baseline.
    pub descent: i64,
}

/// The measure that [`measure`] gives where it gives one: each of the three
/// measures in points, converted to millimetres.
pub open spec fn text_extent(caption: Seq<char>, metrics: GlyphMetricsView, size_pt: int) -> (
    int,
    int,
    int,
) {
    (
        spec_pt_to_mm(width_pt(caption, metrics, size_pt)),
        spec_pt_to_mm(height_pt(metrics, size_pt)),
        spec_pt_to_mm(descent_pt(metrics, size_pt)),
    )
}

/// The advances of a table are advances of `u16`.
pub proof fn lemma_advances_bounded(entries: Seq<GlyphAdvance>, ch: char)
    ensures
        0 <= advance_of(advance_map(entries), ch) <= u16::MAX,
    decreases entries.len(),
{
    if entries.len() > 0 && entries.last().ch != ch {
        lemma_advances_bounded(entries.drop_last(), ch);
    }
}

/// Where no advance is negative, the first `k` characters of a caption
/// advance no further than all of it.
pub proof fn lemma_prefix_advance(advances: Map<char, int>, caption: Seq<char>, k: int)
    requires
        0 <= k <= caption.len(),
        forall|ch: char| 0 <= advance_of(advances, ch),
    ensures
        0 <= total_advance(advances, caption.take(k)) <= total_advance(advances, caption),
    decreases caption.len(),
{
    if k == caption.len() {
        assert(caption.take(k) =~= caption);
        if caption.len() > 0 {
            lemma_prefix_advance(advances, caption.drop_last(), k - 1);
            assert(caption.drop_last().take(k - 1) =~= caption.drop_last());
        }
    } else {
        lemma_prefix_advance(advances, caption.drop_last(), k);
        assert(caption.drop_last().take(k) =~= caption.take(k));
    }
}

impl GlyphMetrics {
    /// The metrics of a font of which no advance is known yet.
    pub fn new(units_per_em: u16, ascender: i16, descender: i16) -> (m: GlyphMetrics)
        ensures
            m@ == (GlyphMetricsView {
                units_per_em: units_per_em as int,
                ascender: ascender as int,
                descender: descender as int,
                advances: Map::<char, int>::empty(),
            }),
    {
        let m = GlyphMetrics { units_per_em, ascender, descender, advances: Vec::new() };
        assert(m@.advances =~= Map::<char, int>::empty());
        m
    }

    /// Records the advance of a character, in place of what was known of it.
    pub fn set_advance(&mut self, ch: char, advance: u16)
        ensures
            final(self)@ == (GlyphMetricsView {
                advances: old(self)@.advances.insert(ch, advance as int),
                ..old(self)@
            }),
    {
        self.advances.push(GlyphAdvance { ch, advance });
        assert(self.advances@.drop_last() =~= old(self).advances@);
        assert(self@.advances =~= old(self)@.advances.insert(ch, advance as int));
    }

    /// The advance of a character, `None` where the table has none for it.
    pub fn advance(&self, ch: char) -> (r: Option<u16>)
        ensures
            r is Some <==> self@.advances.contains_key(ch),
            r matches Some(a) ==> self@.advances[ch] == a,
    {
        let mut i: usize = self.advances.len();
        assert(self.advances@.take(i as int) =~= self.advances@);
        while i > 0
            invariant
                i <= self.advances.len(),
                lookup(self.advances@, ch) == lookup(self.advances@.take(i as int), ch),
            decreases i,
        {
            let entry = self.advances[i - 1];
            assert(self.advances@.take(i as int).drop_last() =~= self.advances@.take(i - 1));
            if entry.ch == ch {
                return Some(entry.advance);
            }
            i -= 1;
        }
        None
    }
}

/// Measures a caption set in a font at a size in points: its width, the
/// height of its line and the depth of its descender, in millimetres.
///
/// The width is the sum of the advances that the font has for the
/// characters of the caption; a character without an advance adds nothing.
/// Each measure is scaled from font units to points, `units / units_per_em
/// * size_pt`, and then converted to millimetres.
pub fn measure(caption: &str, metrics: &GlyphMetrics, size_pt: i64) -> (r: Result<
    TextExtent,
    ConfigurationError,
>)
    ensures
        match measure_refusal(caption@, metrics@, size_pt as int) {
            Some(e) => r == Err::<TextExtent, ConfigurationError>(e),
            None => r matches Ok(extent) && (
                extent.width as int,
                extent.height as int,
                extent.descent as int,
            ) == text_extent(caption@, metrics@, size_pt as int),
        },
{
    if size_pt <= 0 || metrics.units_per_em == 0 {
        return Err(ConfigurationError::NonPositiveSize);
    }
    let ghost advances = metrics@.advances;
    proof {
        assert forall|ch: char| 0 <= advance_of(advances, ch) by {
            lemma_advances_bounded(metrics.advances@, ch);
        }
    }
    let mut total: i64 = 0;
    for ch in it: caption.chars()
        invariant
            it.seq() == caption@,
            total == total_advance(advances, caption@.take(it.index() as int)),
            0 <= total,
            advances == metrics@.advances,
            forall|ch: char| 0 <= advance_of(advances, ch),
            size_pt > 0,
            metrics.units_per_em > 0,
    {
        assert(caption@.take(it.index() + 1).drop_last() =~= caption@.take(it.index() as int));
        if let Some(advance) = metrics.advance(ch) {
            match total.checked_add(advance as i64) {
                Some(sum) => {
                    total = sum;
                },
                None => {
                    proof {
                        lemma_prefix_advance(advances, caption@, it.index() + 1);
                    }
                    return Err(ConfigurationError::Overflow);
                },
            }
        }
    }
    assert(caption@.take(caption@.len() as int) =~= caption@);
    let em = metrics.units_per_em as i64;
    let line = metrics.ascender as i64 - metrics.descender as i64;
    let depth = -(metrics.descender as i64);
    let width = mul_div_round(total, size_pt, em);
    let height = mul_div_round(line, size_pt, em);
    let descent = mul_div_round(depth, size_pt, em);
    proof {
        lemma_width_not_negative(total as int, size_pt as int, em as int);
    }
    if width > i64::MAX as i128 || height < i64::MIN as i128 || height > i64::MAX as i128
        || descent < i64::MIN as i128 || descent > i64::MAX as i128 {
        return Err(ConfigurationError::Overflow);
    }
    Ok(
        TextExtent {
            width: pt_to_mm(width as i64),
            height: pt_to_mm(height as i64),
            descent: pt_to_mm(descent as i64),
        },
    )
}

/// A measure that is not negative in font units is not negative in points.
proof fn lemma_width_not_negative(units: int, size_pt: int, units_per_em: int)
    requires
        units >= 0,
        size_pt > 0,
        units_per_em > 0,
    ensures
        at_size(units, units_per_em, size_pt) >= 0,
{
    assert(units * size_pt >= 0) by (nonlinear_arith)
        requires
            units >= 0,
            size_pt > 0,
    ;
    crate::units::lemma_round_div_monotonic(0, units * size_pt, units_per_em);
    crate::units::lemma_round_div_exact(0, units_per_em);
    assert(0 * units_per_em == 0);
}

/// Where the baseline of a caption starts so that the caption stands in the
/// middle of a box: half of the spare width from the left side, and half of
/// the spare height, and the depth of the descender, from the bottom. What
/// is centred is the line from descender to ascender, not the baseline.
pub open spec fn centered_origin(
    box_origin: PointView,
    box_width: int,
    box_height: int,
    width: int,
    height: int,
    descent: int,
) -> PointView {
    PointView {
        x: box_origin.x + half(box_width - width),
        y: box_origin.y + half(box_height - height) + descent,
    }
}

/// Why [`center_in_box`] places no caption for its arguments, if it places
/// none.
pub open spec fn centering_refusal(
    box_origin: PointView,
    box_width: int,
    box_height: int,
    width: int,
    height: int,
    descent: int,
) -> Option<ConfigurationError> {
    let p = centered_origin(box_origin, box_width, box_height, width, height, descent);
    if box_width <= 0 || box_height <= 0 {
        Some(ConfigurationError::NonPositiveSize)
    } else if !fits_i64(p.x) || !fits_i64(p.y) {
        Some(ConfigurationError::Overflow)
    } else {
        None
    }
}

/// Half of a difference, rounded down.
fn half_difference(a: i64, b: i64) -> (h: i128)
    ensures
        h == half(a - b),
{
    let difference: i128 = a as i128 - b as i128;
    match difference.checked_div_euclid(2) {
        Some(h) => h,
        None => {
            assert(false);
            0
        },
    }
}

/// Places a caption of the measure given in the middle of a box: the result
/// is where its baseline starts.
///
/// `box_origin` is the lower left corner of the box; its width and height
/// must be positive. A caption larger than the box stands out of it equally
/// on both sides.
pub fn center_in_box(box_origin: Point, box_width: i64, box_height: i64, extent: TextExtent) -> (r:
    Result<Point, ConfigurationError>)
    ensures
        match centering_refusal(
            box_origin@,
            box_width as int,
            box_height as int,
            extent.width as int,
            extent.height as int,
            extent.descent as int,
        ) {
            Some(e) => r == Err::<Point, ConfigurationError>(e),
            None => r is Ok && r->Ok_0@ == centered_origin(
                box_origin@,
                box_width as int,
                box_height as int,
                extent.width as int,
                extent.height as int,
                extent.descent as int,
            ),
        },
{
    if box_width <= 0 || box_height <= 0 {
        return Err(ConfigurationError::NonPositiveSize);
    }
    let x: i128 = box_origin.x as i128 + half_difference(box_width, extent.width);
    let y: i128 = box_origin.y as i128 + half_difference(box_height, extent.height)
        + extent.descent as i128;
    if x < i64::MIN as i128 || x > i64::MAX as i128 || y < i64::MIN as i128
        || y > i64::MAX as i128 {
        return Err(ConfigurationError::Overflow);
    }
    Ok(Point { x: x as i64, y: y as i64 })
}

/// The advance that a font face has for a character: that of the glyph that
/// it has for the character, where it has a glyph and records an advance for
/// it.
pub open spec fn face_advance(face: OwnedFace, ch: char) -> Option<int> {
    match face_glyph_index(face, ch) {
        Some(glyph) => match face_glyph_hor_advance(face, glyph) {
            Some(advance) => Some(advance as int),
            None => None,
        },
        None => None,
    }
}

/// The advances that a font face has for the characters given.
pub open spec fn face_advances(face: OwnedFace, chars: Seq<char>) -> Map<char, int> {
    Map::new(
        |ch: char| chars.contains(ch) && face_advance(face, ch) is Some,
        |ch: char| face_advance(face, ch)->0,
    )
}

/// The metrics of a font face, with the advances of the characters given.
pub open spec fn face_view(face: OwnedFace, chars: Seq<char>) -> GlyphMetricsView {
    GlyphMetricsView {
        units_per_em: face_units_per_em(face) as int,
        ascender: face_ascender(face) as int,
        descender: face_descender(face) as int,
        advances: face_advances(face, chars),
    }
}

/// Only the characters of a caption count for its width: with the advances
/// of a face for those characters, the caption advances as far as with the
/// advances of the face for any characters that include them.
pub proof fn lemma_caption_needs_its_own_characters(
    face: OwnedFace,
    caption: Seq<char>,
    chars: Seq<char>,
)
    requires
        forall|i: int| 0 <= i < caption.len() ==> chars.contains(#[trigger] caption[i]),
    ensures
        total_advance(face_advances(face, caption), caption) == total_advance(
            face_advances(face, chars),
            caption,
        ),
{
    lemma_same_advances(face, caption, chars, caption, caption.len() as int);
    assert(caption.take(caption.len() as int) =~= caption);
}

proof fn lemma_same_advances(
    face: OwnedFace,
    few: Seq<char>,
    many: Seq<char>,
    caption: Seq<char>,
    k: int,
)
    requires
        0 <= k <= caption.len(),
        forall|i: int| 0 <= i < caption.len() ==> few.contains(#[trigger] caption[i]),
        forall|i: int| 0 <= i < caption.len() ==> many.contains(#[trigger] caption[i]),
    ensures
        total_advance(face_advances(face, few), caption.take(k)) == total_advance(
            face_advances(face, many),
            caption.take(k),
        ),
    decreases k,
{
    if k > 0 {
        lemma_same_advances(face, few, many, caption, k - 1);
        assert(caption.take(k).drop_last() =~= caption.take(k - 1));
        assert(caption.take(k).last() == caption[k - 1]);
    }
}

/// What keeps the library from reading a font.
#[derive(Clone, Copy, Debug, PartialEq, Eq, Structural)]
pub enum FontError {
    /// The header of the file counts 65,535 tables, which no font has.
    TooManyTables,
    /// The parser of font files refuses the data: it is no font file, or a
    /// font file without the tables that a face needs.
    Malformed,
    /// The `hhea` table of the face records no descender.
    NoDescender,
}

/// Why a caption could not be measured in a font face.
#[derive(Clone, Copy, Debug, PartialEq, Eq, Structural)]
pub enum MeasureError {
    /// The face cannot be read.
    Font(FontError),
    /// The face was read and the measure is refused.
    Configuration(ConfigurationError),
}

/// Why [`face_metrics`] reads nothing from a face, if it reads nothing.
pub open spec fn face_refusal(face: OwnedFace) -> Option<FontError> {
    if face_hhea_descender(face) == 0 {
        Some(FontError::NoDescender)
    } else {
        None
    }
}

/// Why [`load_metrics`] reads nothing from the data of a font file, if it
/// reads nothing.
pub open spec fn font_refusal(data: Seq<u8>) -> Option<FontError> {
    if counts_every_table(data) {
        Some(FontError::TooManyTables)
    } else {
        match parsed_face(data) {
            Ok(face) => face_refusal(face),
            Err(_) => Some(FontError::Malformed),
        }
    }
}

/// Reads from a font face what the measure of a caption needs: the units to
/// the em, the ascender, the descender, and the advance of each of the
/// characters given for which the face has one.
///
/// A face whose `hhea` table records no descender is refused.
pub fn face_metrics(face: &OwnedFace, chars: &str) -> (r: Result<GlyphMetrics, FontError>)
    ensures
        match face_refusal(*face) {
            Some(e) => r == Err::<GlyphMetrics, FontError>(e),
            None => r is Ok && r->Ok_0@ == face_view(*face, chars@) && 16
                <= r->Ok_0.units_per_em <= 16384,
        },
{
    if hhea_descender(face) == 0 {
        return Err(FontError::NoDescender);
    }
    let mut metrics = GlyphMetrics::new(units_per_em(face), ascender(face), descender(face));
    assert(face_advances(*face, chars@.take(0)) =~= Map::<char, int>::empty());
    for ch in it: chars.chars()
        invariant
            it.seq() == chars@,
            metrics@ == face_view(*face, chars@.take(it.index() as int)),
            16 <= metrics.units_per_em <= 16384,
    {
        let ghost seen = chars@.take(it.index() as int);
        let ghost next = chars@.take(it.index() + 1);
        proof {
            assert(next =~= seen.push(ch));
            assert forall|c: char| next.contains(c) <==> seen.contains(c) || c == ch by {
                if seen.contains(c) {
                    let i = choose|i: int| 0 <= i < seen.len() && seen[i] == c;
                    assert(next[i] == c);
                }
                if c == ch {
                    assert(next[next.len() - 1] == c);
                }
            }
        }
        if let Some(glyph) = glyph_index(face, ch) {
            if let Some(advance) = glyph_hor_advance(face, glyph) {
                metrics.set_advance(ch, advance);
            }
        }
        assert(metrics@.advances =~= face_advances(*face, next));
    }
    assert(chars@.take(chars@.len() as int) =~= chars@);
    Ok(metrics)
}

/// The metrics of a font file that was parsed, with the advances of the
/// characters given; the refusal of one that was not.
pub fn metrics_of_parsed(parsed: Result<OwnedFace, FaceParsingError>, chars: &str) -> (r: Result<
    GlyphMetrics,
    FontError,
>)
    ensures
        match parsed {
            Ok(face) => match face_refusal(face) {
                Some(e) => r == Err::<GlyphMetrics, FontError>(e),
                None => r is Ok && r->Ok_0@ == face_view(face, chars@) && 16
                    <= r->Ok_0.units_per_em <= 16384,
            },
            Err(_) => r == Err::<GlyphMetrics, FontError>(FontError::Malformed),
        },
{
    match parsed {
        Ok(face) => face_metrics(&face, chars),
        Err(_) => Err(FontError::Malformed),
    }
}

/// Reads from the data of a font file, of its first face, what the measure
/// of a caption needs.
///
/// Data that the parser of font files accepts gives the metrics of the face
/// that it holds, as [`face_metrics`] reads them for the characters given.
/// Data whose header counts 65,535 tables is refused before the parser sees
/// it, and data that the parser refuses gives [`FontError::Malformed`].
pub fn load_metrics(font_data: Vec<u8>, chars: &str) -> (r: Result<GlyphMetrics, FontError>)
    ensures
        match font_refusal(font_data@) {
            Some(e) => r == Err::<GlyphMetrics, FontError>(e),
            None => r is Ok && r->Ok_0@ == face_view(parsed_face(font_data@)->Ok_0, chars@)
                && 16 <= r->Ok_0.units_per_em <= 16384,
        },
{
    if counts_every_table_record(&font_data) {
        return Err(FontError::TooManyTables);
    }
    metrics_of_parsed(parse_face(font_data), chars)
}

/// Measures a caption set in a font face at a size in points, as
/// [`measure`] does with the advances that the face has for the characters
/// of the caption.
pub fn measure_in_face(caption: &str, face: &OwnedFace, size_pt: i64) -> (r: Result<
    TextExtent,
    MeasureError,
>)
    ensures
        match face_refusal(*face) {
            Some(e) => r == Err::<TextExtent, MeasureError>(MeasureError::Font(e)),
            None => match measure_refusal(caption@, face_view(*face, caption@), size_pt as int) {
                Some(e) => r == Err::<TextExtent, MeasureError>(MeasureError::Configuration(e)),
                None => r matches Ok(extent) && (
                    extent.width as int,
                    extent.height as int,
                    extent.descent as int,
                ) == text_extent(caption@, face_view(*face, caption@), size_pt as int),
            },
        },
{
    let metrics = match face_metrics(face, caption) {
        Ok(metrics) => metrics,
        Err(e) => {
            return Err(MeasureError::Font(e));
        },
    };
    match measure(caption, &metrics, size_pt) {
        Ok(extent) => Ok(extent),
        Err(e) => Err(MeasureError::Configuration(e)),
    }
}

/// An empty caption has no width and the full height of its line: whatever
/// the font and the size, the width is zero, and the height and the depth
/// are those of any other caption. The height is above zero exactly where
/// the line is at least two millionths of a point high, which it is for
/// every font whose ascender lies above its descender at any size of at
/// least two units to each unit of the em.
pub proof fn lemma_empty_caption(metrics: GlyphMetricsView, size_pt: int, other: Seq<char>)
    requires
        metrics.units_per_em > 0,
        size_pt > 0,
    ensures
        text_extent(Seq::<char>::empty(), metrics, size_pt).0 == 0,
        text_extent(Seq::<char>::empty(), metrics, size_pt).1 == spec_pt_to_mm(
            round_div((metrics.ascender - metrics.descender) * size_pt, metrics.units_per_em),
        ),
        text_extent(Seq::<char>::empty(), metrics, size_pt).1 == text_extent(
            other,
            metrics,
            size_pt,
        ).1,
        text_extent(Seq::<char>::empty(), metrics, size_pt).2 == text_extent(
            other,
            metrics,
            size_pt,
        ).2,
        text_extent(Seq::<char>::empty(), metrics, size_pt).1 > 0 <==> height_pt(metrics, size_pt)
            >= 2,
        metrics.ascender > metrics.descender && size_pt >= 2 * metrics.units_per_em ==> height_pt(
            metrics,
            size_pt,
        ) >= 2,
{
    let em = metrics.units_per_em;
    assert(0 * size_pt == 0);
    crate::units::lemma_round_div_exact(0, em);
    assert(0 * em == 0);
    crate::units::lemma_round_div_exact(0, 360);
    let points = height_pt(metrics, size_pt);
    crate::units::lemma_round_div_nearest(points * 127, 360);
    if metrics.ascender > metrics.descender && size_pt >= 2 * em {
        let line = metrics.ascender - metrics.descender;
        assert(line * size_pt >= 2 * em) by (nonlinear_arith)
            requires
                line >= 1,
                size_pt >= 2 * em,
                em > 0,
        ;
        crate::units::lemma_round_div_monotonic(2 * em, line * size_pt, em);
        crate::units::lemma_round_div_exact(2, em);
    }
}

} // verus!
