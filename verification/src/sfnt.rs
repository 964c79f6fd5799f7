//! The header of a font file, as far as the library reads it itself.
//!
//! A font file starts with a tag and the number of its tables. A collection
//! of fonts starts with another tag and the places of its fonts, of which
//! the library reads the first.

use vstd::prelude::*;

verus! {

/// The tag with which a collection of fonts starts: the letters `ttcf`.
pub const COLLECTION_TAG: u32 = 0x7474_6366;

/// The largest number of tables that a header can count.
pub const FULL_TABLE_COUNT: u16 = 0xffff;

/// The two bytes at a place, read as a number with the high byte first.
pub open spec fn be16(data: Seq<u8>, at: int) -> int {
    data[at] * 256 + data[at + 1]
}

/// The four bytes at a place, read as a number with the high byte first.
pub open spec fn be32(data: Seq<u8>, at: int) -> int {
    ((data[at] * 256 + data[at + 1]) * 256 + data[at + 2]) * 256 + data[at + 3]
}

/// Where the header of the first font stands: at the start of the file, or,
/// in a collection, where the collection says.
pub open spec fn header_start(data: Seq<u8>) -> int {
    if data.len() >= 16 && be32(data, 0) == COLLECTION_TAG {
        be32(data, 12)
    } else {
        0
    }
}

/// Whether the header of the first font counts as many tables as a header
/// can count. No font has so many; a file that says so is not read.
pub open spec fn counts_every_table(data: Seq<u8>) -> bool {
    let start = header_start(data);
    start + 6 <= data.len() && be16(data, start + 4) == FULL_TABLE_COUNT
}

fn read_be16(data: &Vec<u8>, at: usize) -> (v: u16)
    requires
        at + 2 <= data.len(),
    ensures
        v == be16(data@, at as int),
{
    data[at] as u16 * 256 + data[at + 1] as u16
}

fn read_be32(data: &Vec<u8>, at: usize) -> (v: u32)
    requires
        at + 4 <= data.len(),
    ensures
        v == be32(data@, at as int),
{
    ((data[at] as u32 * 256 + data[at + 1] as u32) * 256 + data[at + 2] as u32) * 256 + data[at
        + 3] as u32
}

/// Whether the header of the first font counts as many tables as a header
/// can count.
pub fn counts_every_table_record(data: &Vec<u8>) -> (full: bool)
    ensures
        full == counts_every_table(data@),
{
    let len = data.len();
    let start: usize = if len >= 16 && read_be32(data, 0) == COLLECTION_TAG {
        read_be32(data, 12) as usize
    } else {
        0
    };
    len >= 6 && start <= len - 6 && read_be16(data, start + 4) == FULL_TABLE_COUNT
}

} // verus!
