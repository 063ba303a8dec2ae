//! The mathematical model of the page: what the validity stream, the plain
//! value region and the assembled page body are, as sequences of plain values.

use vstd::prelude::*;

use crate::options::Version;

verus! {

/// Whether a row of the column counts as present (non-null).
///
/// Null classification is an open extension point of this encoder: at
/// present every row is reported present, so the predicate is constantly
/// true. A real null rule (a sentinel value, a side bitmap) would replace
/// this body and the body of its executable twin
/// [`crate::validity::is_valid_row`]; everything downstream is already
/// stated for an arbitrary validity stream.
pub open spec fn row_is_valid<const N: usize>(row: [u8; N]) -> bool {
    true
}

/// The validity stream of a column: one boolean per row, in row order,
/// `true` meaning the value is present.
pub open spec fn validity_of<const N: usize>(rows: Seq<[u8; N]>) -> Seq<bool> {
    rows.map(|i: int, row: [u8; N]| row_is_valid(row))
}

/// How many rows of the column are null.
pub open spec fn null_count_of<const N: usize>(rows: Seq<[u8; N]>) -> nat
    decreases rows.len(),
{
    if rows.len() == 0 {
        0
    } else {
        null_count_of(rows.drop_last()) + (if row_is_valid(rows.last()) {
            0nat
        } else {
            1nat
        })
    }
}

/// Under the current validity rule every row is present, so every column's
/// null count is zero and its non-null count is its full length.
pub proof fn lemma_null_count_zero<const N: usize>(rows: Seq<[u8; N]>)
    ensures
        null_count_of(rows) == 0,
    decreases rows.len(),
{
    if rows.len() > 0 {
        lemma_null_count_zero::<N>(rows.drop_last());
    }
}

/// The plain (uncompressed) value region: the raw fixed-width bytes of
/// every present row, in row order, with no separators and no length
/// prefixes. Absent rows are skipped; the validity block lets a reader
/// realign the remaining values.
pub open spec fn plain_bytes<const N: usize>(rows: Seq<[u8; N]>) -> Seq<u8>
    decreases rows.len(),
{
    if rows.len() == 0 {
        Seq::empty()
    } else {
        plain_bytes(rows.drop_last()) + (if row_is_valid(rows.last()) {
            rows.last()@
        } else {
            Seq::empty()
        })
    }
}

/// The four little-endian bytes of `n`.
pub open spec fn u32_le(n: u32) -> Seq<u8> {
    seq![
        (n & 0xff) as u8,
        ((n >> 8) & 0xff) as u8,
        ((n >> 16) & 0xff) as u8,
        ((n >> 24) & 0xff) as u8,
    ]
}

/// The bytes that the outside hybrid run-length/bit-packed encoder appends
/// for a given bit sequence. The encoding is a function of the bits alone;
/// its exact shape is stated nowhere here, only named, and the trusted
/// wrapper around the outside encoder ties the name to the real call.
pub uninterp spec fn hybrid_rle_of(bits: Seq<bool>) -> Seq<u8>;

/// The encoded validity (definition-level) block, by page version: the v1
/// layout prefixes the encoded bits with their byte length as a
/// little-endian u32, the v2 layout stores them bare (there the length
/// lives in the page header instead). The v1 form is meaningful only when
/// that length fits in a u32; producing a page fails otherwise.
pub open spec fn validity_block(version: Version, bits: Seq<bool>) -> Seq<u8> {
    match version {
        Version::V1 => u32_le(hybrid_rle_of(bits).len() as u32) + hybrid_rle_of(bits),
        Version::V2 => hybrid_rle_of(bits),
    }
}

/// The whole page body: the validity block first, then the plain value
/// region, in one buffer.
pub open spec fn page_bytes<const N: usize>(version: Version, rows: Seq<[u8; N]>) -> Seq<u8> {
    validity_block(version, validity_of(rows)) + plain_bytes(rows)
}

} // verus!
