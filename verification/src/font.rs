//! What is read from a font file, through `owned_ttf_parser`.
//!
//! Nothing in this file is proved: each function states what the parser's
//! source and documentation say of the call that it makes. The parser is
//! built without its support for font variations, layout tables and glyph
//! names, so a face is read at the default of its axes.

use vstd::prelude::*;
use owned_ttf_parser::{AsFaceRef, FaceParsingError, GlyphId, OwnedFace};
use crate::sfnt::counts_every_table;

verus! {

/// A parsed font face that owns its data.
#[verifier::external_type_specification]
#[verifier::external_body]
pub struct ExOwnedFace(OwnedFace);

/// Why a font file could not be parsed.
#[verifier::external_type_specification]
#[verifier::external_body]
pub struct ExFaceParsingError(FaceParsingError);

/// The units that the face counts to the em.
pub uninterp spec fn face_units_per_em(face: OwnedFace) -> u16;

/// The ascender of the face, in font units above the baseline.
pub uninterp spec fn face_ascender(face: OwnedFace) -> i16;

/// The descender of the face, in font units above the baseline: negative
/// for a face that descends below it.
pub uninterp spec fn face_descender(face: OwnedFace) -> i16;

/// The number of the glyph that the face has for a character, if it has
/// one.
pub uninterp spec fn face_glyph_index(face: OwnedFace, ch: char) -> Option<u16>;

/// The horizontal advance of the glyph of the number given, in font units,
/// if the face records one.
pub uninterp spec fn face_glyph_hor_advance(face: OwnedFace, glyph: u16) -> Option<u16>;

/// The descender that the `hhea` table of the face records.
pub uninterp spec fn face_hhea_descender(face: OwnedFace) -> i16;

/// What the parser makes of the data of a font file, read as its first
/// face: the face, or why the data is refused.
pub uninterp spec fn parsed_face(data: Seq<u8>) -> Result<OwnedFace, FaceParsingError>;

/// `OwnedFace::from_vec` with index 0: parses the first face of a font file.
/// The outcome depends on the data alone; nothing else is claimed of it.
///
/// The parser walks the table records with a 16-bit counter, which it steps
/// once past the last record; a header that counts 65,535 records is left
/// out, on which that step overflows.
#[verifier::external_body]
pub(crate) fn parse_face(data: Vec<u8>) -> (r: Result<OwnedFace, FaceParsingError>)
    requires
        !counts_every_table(data@),
    ensures
        r == parsed_face(data@),
{
    OwnedFace::from_vec(data, 0)
}

/// The field `descender` of `Face::tables().hhea`: the descender as the
/// `hhea` table records it.
#[verifier::external_body]
pub(crate) fn hhea_descender(face: &OwnedFace) -> (r: i16)
    ensures
        r == face_hhea_descender(*face),
{
    face.as_face_ref().tables().hhea.descender
}

/// `Face::units_per_em`: the units per em, which the parser guarantees to
/// lie from 16 to 16384; it refuses a face whose header says otherwise.
#[verifier::external_body]
pub(crate) fn units_per_em(face: &OwnedFace) -> (r: u16)
    ensures
        r == face_units_per_em(*face),
        16 <= r <= 16384,
{
    face.as_face_ref().units_per_em()
}

/// `Face::ascender`: the horizontal ascender of the face. Without support
/// for variations the parser only reads it, from the `OS/2` or the `hhea`
/// table.
#[verifier::external_body]
pub(crate) fn ascender(face: &OwnedFace) -> (r: i16)
    ensures
        r == face_ascender(*face),
{
    face.as_face_ref().ascender()
}

/// `Face::descender`: the horizontal descender of the face.
///
/// Where the `hhea` table records no descender the parser may turn to the
/// `OS/2` table and negate its Windows descent, which overflows for one
/// value; a face whose `hhea` descender is zero is left out.
#[verifier::external_body]
pub(crate) fn descender(face: &OwnedFace) -> (r: i16)
    requires
        face_hhea_descender(*face) != 0,
    ensures
        r == face_descender(*face),
{
    face.as_face_ref().descender()
}

/// `Face::glyph_index`: the glyph for a character, `None` where the face has
/// none. The glyph is handed out by its number.
#[verifier::external_body]
pub(crate) fn glyph_index(face: &OwnedFace, ch: char) -> (r: Option<u16>)
    ensures
        r == face_glyph_index(*face, ch),
{
    face.as_face_ref().glyph_index(ch).map(|id| id.0)
}

/// `Face::glyph_hor_advance`: the horizontal advance of a glyph, `None`
/// where the face records none for it. Without support for variations the
/// parser only reads it from the `hmtx` table.
#[verifier::external_body]
pub(crate) fn glyph_hor_advance(face: &OwnedFace, glyph: u16) -> (r: Option<u16>)
    ensures
        r == face_glyph_hor_advance(*face, glyph),
{
    face.as_face_ref().glyph_hor_advance(GlyphId(glyph))
}

} // verus!
