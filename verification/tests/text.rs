use audiogram::sfnt::counts_every_table_record;
use audiogram::{
    center_in_box, face_metrics, load_metrics, measure, measure_in_face, metrics_of_parsed,
    ConfigurationError, FontError, GlyphAdvance, GlyphMetrics, MeasureError, Point, TextExtent,
};
use owned_ttf_parser::{AsFaceRef, FaceParsingError, OwnedFace};

const TEN_POINT: i64 = 10_000_000;
const TWELVE_POINT: i64 = 12_000_000;

// A font of 2048 units to the em in which "Jane Doe" advances 4500 units.
fn roman() -> GlyphMetrics {
    let mut m = GlyphMetrics::new(2048, 1900, -500);
    m.set_advance('J', 500);
    m.set_advance('a', 550);
    m.set_advance('n', 600);
    m.set_advance('e', 550);
    m.set_advance(' ', 250);
    m.set_advance('D', 900);
    m.set_advance('o', 600);
    m
}

fn be16(out: &mut Vec<u8>, v: u16) {
    out.push((v >> 8) as u8);
    out.push((v & 0xff) as u8);
}

fn be32(out: &mut Vec<u8>, v: u32) {
    be16(out, (v >> 16) as u16);
    be16(out, (v & 0xffff) as u16);
}

// The characters of the test font, in the order of their glyphs from 1, and
// their advances. Glyph 0 stands for every other character from ' ' to 'z'.
fn glyphs() -> Vec<(char, u16)> {
    vec![(' ', 250), ('D', 722), ('J', 389), ('a', 444), ('e', 445), ('n', 556), ('o', 501)]
}

// A font file with the five tables that the measure of a caption reads.
fn font_file(units_per_em: u16, ascender: i16, descender: i16) -> Vec<u8> {
    font_file_with(units_per_em, ascender, descender, None)
}

// A table that gives a font one axis of variation, its weight.
fn weight_axis() -> Vec<u8> {
    let mut fvar = Vec::new();
    be32(&mut fvar, 0x0001_0000); // version
    be16(&mut fvar, 16); // where the axes stand
    be16(&mut fvar, 2);
    be16(&mut fvar, 1); // one axis
    be16(&mut fvar, 20); // size of an axis
    be16(&mut fvar, 0); // no instances
    be16(&mut fvar, 0);
    fvar.extend_from_slice(b"wght");
    be32(&mut fvar, 100 << 16);
    be32(&mut fvar, 400 << 16);
    be32(&mut fvar, 900 << 16);
    be16(&mut fvar, 0);
    be16(&mut fvar, 256);
    fvar
}

// The same font file, with one more table between `cmap` and `head`.
fn font_file_with(
    units_per_em: u16,
    ascender: i16,
    descender: i16,
    more: Option<(&'static [u8; 4], Vec<u8>)>,
) -> Vec<u8> {
    let glyphs = glyphs();
    let count = glyphs.len() as u16 + 1;

    let mut head = Vec::new();
    be32(&mut head, 0x0001_0000); // version
    be32(&mut head, 0x0001_0000); // revision
    be32(&mut head, 0); // checksum adjustment
    be32(&mut head, 0x5f0f_3cf5); // magic number
    be16(&mut head, 0); // flags
    be16(&mut head, units_per_em);
    for _ in 0..16 {
        head.push(0); // created, modified
    }
    for _ in 0..4 {
        be16(&mut head, 0); // bounding box
    }
    be16(&mut head, 0); // style
    be16(&mut head, 8); // smallest size
    be16(&mut head, 2); // direction hint
    be16(&mut head, 0); // short offsets
    be16(&mut head, 0); // glyph data format
    assert_eq!(head.len(), 54);

    let mut hhea = Vec::new();
    be32(&mut hhea, 0x0001_0000);
    be16(&mut hhea, ascender as u16);
    be16(&mut hhea, descender as u16);
    be16(&mut hhea, 0); // line gap
    for _ in 0..24 {
        hhea.push(0);
    }
    be16(&mut hhea, count); // number of metrics
    assert_eq!(hhea.len(), 36);

    let mut maxp = Vec::new();
    be32(&mut maxp, 0x0000_5000);
    be16(&mut maxp, count);

    let mut hmtx = Vec::new();
    be16(&mut hmtx, 1000); // glyph 0
    be16(&mut hmtx, 0);
    for (_, advance) in &glyphs {
        be16(&mut hmtx, *advance);
        be16(&mut hmtx, 0);
    }

    let first = ' ' as u16;
    let last = 'z' as u16;
    let mut cmap = Vec::new();
    be16(&mut cmap, 0); // version
    be16(&mut cmap, 1); // one subtable
    be16(&mut cmap, 0); // platform: Unicode
    be16(&mut cmap, 3); // encoding: basic plane
    be32(&mut cmap, 12); // offset of the subtable
    be16(&mut cmap, 6); // format: trimmed table
    be16(&mut cmap, 10 + 2 * (last - first + 1)); // length
    be16(&mut cmap, 0); // language
    be16(&mut cmap, first);
    be16(&mut cmap, last - first + 1);
    for code in first..=last {
        let ch = char::from_u32(code as u32).unwrap();
        let glyph = glyphs.iter().position(|(c, _)| *c == ch).map(|i| i as u16 + 1).unwrap_or(0);
        be16(&mut cmap, glyph);
    }

    let mut tables: Vec<(&[u8; 4], Vec<u8>)> =
        vec![(b"cmap", cmap), (b"head", head), (b"hhea", hhea), (b"hmtx", hmtx), (b"maxp", maxp)];
    if let Some(table) = more {
        tables.insert(1, table);
    }
    let mut file = Vec::new();
    be32(&mut file, 0x0001_0000);
    be16(&mut file, tables.len() as u16);
    be16(&mut file, 64);
    be16(&mut file, 2);
    be16(&mut file, 16);
    let mut offset = 12 + 16 * tables.len();
    for (tag, data) in &tables {
        file.extend_from_slice(&tag[..]);
        be32(&mut file, 0);
        be32(&mut file, offset as u32);
        be32(&mut file, data.len() as u32);
        offset += (data.len() + 3) / 4 * 4;
    }
    for (_, data) in &tables {
        file.extend_from_slice(data);
        while file.len() % 4 != 0 {
            file.push(0);
        }
    }
    file
}

#[test]
fn an_empty_caption_has_no_width_and_the_full_height() {
    let m = roman();
    let extent = measure("", &m, TEN_POINT).unwrap();
    assert_eq!(extent.width, 0);
    // (1900 + 500) / 2048 * 10 pt = 11.71875 pt
    assert_eq!(extent.height, 4_134_115);
    assert_eq!(extent.descent, 861_274);
    assert!(extent.height > 0);
    let bare = GlyphMetrics::new(2048, 1900, -500);
    assert_eq!(measure("", &bare, TEN_POINT), Ok(extent));
    let other = measure("Jane Doe", &m, TEN_POINT).unwrap();
    assert_eq!(other.height, extent.height);
    assert_eq!(other.descent, extent.descent);
}

#[test]
fn jane_doe_at_ten_points() {
    let extent = measure("Jane Doe", &roman(), TEN_POINT).unwrap();
    // 4500 / 2048 * 10 pt = 21.97265625 pt
    assert_eq!(extent, TextExtent { width: 7_751_465, height: 4_134_115, descent: 861_274 });
    assert!((extent.width as f64 / 1e6 - 7.75).abs() < 0.005);
    assert!((extent.height as f64 / 1e6 - 4.13).abs() < 0.005);
    assert!((extent.descent as f64 / 1e6 - 0.86).abs() < 0.005);
    let exact = 4500.0 / 2048.0 * 10.0 * 25.4 / 72.0;
    assert!((extent.width as f64 / 1e6 - exact).abs() < 2e-6);
}

#[test]
fn jane_doe_in_the_middle_of_her_box() {
    let extent = measure("Jane Doe", &roman(), TEN_POINT).unwrap();
    let origin = Point { x: 65_000_000, y: 140_000_000 };
    let at = center_in_box(origin, 80_000_000, 20_000_000, extent).unwrap();
    assert_eq!(at, Point { x: 101_124_267, y: 148_794_216 });
    assert!((at.x as f64 / 1e6 - 101.1).abs() < 0.05);
    assert!((at.y as f64 / 1e6 - 148.8).abs() < 0.05);
}

#[test]
fn a_character_without_an_advance_adds_nothing() {
    let m = roman();
    let plain = measure("Jane Doe", &m, TEN_POINT).unwrap();
    assert_eq!(measure("J\u{e9}ane Doe?", &m, TEN_POINT), Ok(plain));
    assert_eq!(measure("???", &m, TEN_POINT).unwrap().width, 0);
}

#[test]
fn the_last_advance_of_a_character_counts() {
    let mut m = GlyphMetrics::new(1000, 800, -200);
    assert_eq!(m.advance('x'), None);
    m.set_advance('x', 100);
    m.set_advance('y', 300);
    m.set_advance('x', 500);
    assert_eq!(m.advance('x'), Some(500));
    assert_eq!(m.advance('y'), Some(300));
    assert_eq!(m.advance('z'), None);
    assert_eq!(
        m.advances,
        vec![
            GlyphAdvance { ch: 'x', advance: 100 },
            GlyphAdvance { ch: 'y', advance: 300 },
            GlyphAdvance { ch: 'x', advance: 500 },
        ]
    );
    // 1300 / 1000 * 1 pt
    assert_eq!(measure("xyx", &m, 1_000_000).unwrap().width, 458_611);
}

#[test]
fn measures_scale_with_the_size() {
    let m = GlyphMetrics { units_per_em: 1000, ascender: 800, descender: -200, advances: vec![GlyphAdvance { ch: 'm', advance: 1000 }] };
    // one em at 72 points is an inch
    let extent = measure("m", &m, 72_000_000).unwrap();
    assert_eq!(extent, TextExtent { width: 25_400_000, height: 25_400_000, descent: 5_080_000 });
    let twice = measure("mm", &m, 72_000_000).unwrap();
    assert_eq!(twice.width, 50_800_000);
}

#[test]
fn a_descender_above_the_baseline_gives_a_negative_depth() {
    let m = GlyphMetrics::new(1000, 800, 200);
    let extent = measure("", &m, 72_000_000).unwrap();
    assert_eq!(extent.descent, -5_080_000);
    assert_eq!(extent.height, 15_240_000);
}

#[test]
fn measure_refuses_sizes_that_are_not_positive() {
    let m = roman();
    assert_eq!(measure("Jane", &m, 0), Err(ConfigurationError::NonPositiveSize));
    assert_eq!(measure("Jane", &m, -TEN_POINT), Err(ConfigurationError::NonPositiveSize));
    let flat = GlyphMetrics::new(0, 1900, -500);
    assert_eq!(measure("Jane", &flat, TEN_POINT), Err(ConfigurationError::NonPositiveSize));
}

#[test]
fn measure_refuses_what_does_not_fit() {
    let mut m = GlyphMetrics::new(16, 32767, -32768);
    m.set_advance('w', 65535);
    assert_eq!(measure("w", &m, i64::MAX), Err(ConfigurationError::Overflow));
    assert_eq!(measure("", &m, i64::MAX), Err(ConfigurationError::Overflow));
    let mut small = GlyphMetrics::new(16384, 1, 0);
    small.set_advance('w', 1);
    assert!(measure("w", &small, i64::MAX).is_ok());
}

#[test]
fn centering_takes_half_of_what_is_spare() {
    let extent = TextExtent { width: 30, height: 10, descent: 2 };
    assert_eq!(center_in_box(Point { x: 100, y: 200 }, 50, 20, extent), Ok(Point { x: 110, y: 207 }));
    // a caption larger than its box stands out on both sides; halves round down
    assert_eq!(center_in_box(Point { x: 100, y: 200 }, 25, 5, extent), Ok(Point { x: 97, y: 199 }));
    assert_eq!(center_in_box(Point { x: 0, y: 0 }, 31, 11, extent), Ok(Point { x: 0, y: 2 }));
}

#[test]
fn centering_refusals() {
    let extent = TextExtent { width: 30, height: 10, descent: 2 };
    let o = Point { x: 0, y: 0 };
    assert_eq!(center_in_box(o, 0, 20, extent), Err(ConfigurationError::NonPositiveSize));
    assert_eq!(center_in_box(o, 50, -1, extent), Err(ConfigurationError::NonPositiveSize));
    assert_eq!(
        center_in_box(Point { x: i64::MAX, y: 0 }, 50, 20, extent),
        Err(ConfigurationError::Overflow)
    );
    let deep = TextExtent { width: 0, height: 0, descent: i64::MAX };
    assert_eq!(center_in_box(o, 1, 2, deep), Err(ConfigurationError::Overflow));
    assert_eq!(center_in_box(o, 1, 1, deep), Ok(Point { x: 0, y: i64::MAX }));
}

#[test]
fn metrics_are_read_from_a_font_file() {
    let m = load_metrics(font_file(1000, 800, -200), "Jane Doe").unwrap();
    assert_eq!(m.units_per_em, 1000);
    assert_eq!(m.ascender, 800);
    assert_eq!(m.descender, -200);
    assert_eq!(m.advance('J'), Some(389));
    assert_eq!(m.advance('a'), Some(444));
    assert_eq!(m.advance('n'), Some(556));
    assert_eq!(m.advance('e'), Some(445));
    assert_eq!(m.advance(' '), Some(250));
    assert_eq!(m.advance('D'), Some(722));
    assert_eq!(m.advance('o'), Some(501));
    // not asked for
    assert_eq!(m.advance('z'), None);
    let other = load_metrics(font_file(2048, 1900, -500), "").unwrap();
    assert_eq!((other.units_per_em, other.ascender, other.descender), (2048, 1900, -500));
    assert!(other.advances.is_empty());
}

#[test]
fn a_face_has_no_advance_for_characters_outside_it() {
    let face = OwnedFace::from_vec(font_file(1000, 800, -200), 0).unwrap();
    let m = face_metrics(&face, "J\u{e9}\u{2606}x").unwrap();
    assert_eq!(m.advance('J'), Some(389));
    assert_eq!(m.advance('\u{e9}'), None);
    assert_eq!(m.advance('\u{2606}'), None);
    // in the range of the font, without a glyph of its own
    assert_eq!(m.advance('x'), Some(1000));
}

#[test]
fn a_caption_is_measured_in_a_face() {
    let face = OwnedFace::from_vec(font_file(1000, 800, -200), 0).unwrap();
    // 3752 units at 12 points
    let extent = measure_in_face("Jane Doe", &face, TWELVE_POINT).unwrap();
    assert_eq!(extent, TextExtent { width: 15_883_467, height: 4_233_333, descent: 846_667 });
    // the accented letter is not in the font
    let less = measure_in_face("Jan\u{e9} Doe", &face, TWELVE_POINT).unwrap();
    assert_eq!(less.width, 13_999_633);
    let m = face_metrics(&face, "Jane Doe and more").unwrap();
    assert_eq!(measure("Jane Doe", &m, TWELVE_POINT), Ok(extent));
    assert_eq!(
        measure_in_face("Jane Doe", &face, 0),
        Err(MeasureError::Configuration(ConfigurationError::NonPositiveSize))
    );
}

#[test]
fn what_is_no_font_file_is_refused() {
    assert_eq!(load_metrics(vec![], "a"), Err(FontError::Malformed));
    assert_eq!(load_metrics(vec![1, 2, 3, 4, 5, 6, 7, 8], "a"), Err(FontError::Malformed));
    let mut cut = font_file(1000, 800, -200);
    cut.truncate(40);
    assert_eq!(load_metrics(cut, "a"), Err(FontError::Malformed));
    // a font that counts too few units to the em
    assert_eq!(load_metrics(font_file(8, 800, -200), "a"), Err(FontError::Malformed));
}

#[test]
fn a_parsed_font_gives_its_metrics_and_a_refused_one_its_refusal() {
    let parsed = OwnedFace::from_vec(font_file(1000, 800, -200), 0);
    let m = metrics_of_parsed(parsed, "Jo").unwrap();
    assert_eq!((m.units_per_em, m.ascender, m.descender), (1000, 800, -200));
    assert_eq!(
        m.advances,
        vec![GlyphAdvance { ch: 'J', advance: 389 }, GlyphAdvance { ch: 'o', advance: 501 }]
    );
    assert_eq!(metrics_of_parsed(Err(FaceParsingError::UnknownMagic), "Jo"), Err(FontError::Malformed));
    assert_eq!(metrics_of_parsed(Err(FaceParsingError::NoHeadTable), ""), Err(FontError::Malformed));
}

#[test]
fn a_header_that_counts_every_table_is_refused_unread() {
    let full = vec![0, 1, 0, 0, 0xff, 0xff, 0, 0, 0, 0, 0, 0];
    assert!(counts_every_table_record(&full));
    assert_eq!(load_metrics(full, "a"), Err(FontError::TooManyTables));
    // the first font of a collection, where the collection says it stands
    let mut collection = vec![0x74, 0x74, 0x63, 0x66, 0, 1, 0, 0, 0, 0, 0, 1, 0, 0, 0, 20];
    collection.extend_from_slice(&[0, 0, 0, 0, 0, 1, 0, 0, 0xff, 0xff]);
    assert!(counts_every_table_record(&collection));
    assert_eq!(load_metrics(collection.clone(), ""), Err(FontError::TooManyTables));
    collection[25] = 0xfe;
    assert!(!counts_every_table_record(&collection));
    assert_eq!(load_metrics(collection, ""), Err(FontError::Malformed));
    assert!(!counts_every_table_record(&font_file(1000, 800, -200)));
    assert!(!counts_every_table_record(&vec![]));
    assert!(!counts_every_table_record(&vec![0, 1, 0, 0, 0xff]));
    assert!(!counts_every_table_record(&vec![0, 1, 0, 0, 0xff, 0xfe]));
}

#[test]
fn a_face_without_a_descender_is_refused() {
    assert_eq!(load_metrics(font_file(1000, 800, 0), "a"), Err(FontError::NoDescender));
    let face = OwnedFace::from_vec(font_file(1000, 800, 0), 0).unwrap();
    assert_eq!(face_metrics(&face, "Jane"), Err(FontError::NoDescender));
    assert_eq!(
        measure_in_face("Jane", &face, 0),
        Err(MeasureError::Font(FontError::NoDescender))
    );
    assert_eq!(metrics_of_parsed(Ok(face), ""), Err(FontError::NoDescender));
    // a descender above the baseline is one
    assert_eq!(load_metrics(font_file(1000, 800, 150), "").unwrap().descender, 150);
}

#[test]
fn the_height_of_a_line_is_above_zero_from_two_millionths_of_a_point() {
    // one unit of line to the em
    let m = GlyphMetrics::new(1000, 1, 0);
    assert_eq!(measure("", &m, 1_499).unwrap().height, 0);
    assert_eq!(measure("", &m, 1_500).unwrap().height, 1);
    assert_eq!(measure("", &m, 2_000).unwrap().height, 1);
    let roman = GlyphMetrics::new(2048, 1900, -500);
    assert!(measure("", &roman, 2 * 2048).unwrap().height > 0);
    assert_eq!(measure("", &roman, 1).unwrap().height, 0);
}

#[test]
fn a_font_with_axes_is_read_at_their_default() {
    let file = font_file_with(1000, 800, -200, Some((b"fvar", weight_axis())));
    let face = OwnedFace::from_vec(file.clone(), 0).unwrap();
    // the parser is built without its support for variations
    assert!(!face.as_face_ref().is_variable());
    let m = load_metrics(file, "Jane Doe").unwrap();
    assert_eq!((m.units_per_em, m.ascender, m.descender), (1000, 800, -200));
    assert_eq!(m.advance('J'), Some(389));
    assert_eq!(face_metrics(&face, "Jane Doe"), Ok(m));
}
