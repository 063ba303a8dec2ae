//! The page orchestrator: runs the validity deriver, the validity encoder
//! and the plain value encoder over one shared buffer, then hands the
//! buffer and its exact accounting to the outside page record.

use vstd::prelude::*;

use crate::model::{
    hybrid_rle_of, null_count_of, page_bytes, plain_bytes, validity_block, validity_of,
};
use crate::options::{PageError, Version, WriteOptions};
use parquet2::metadata::Descriptor;
use parquet2::page::{DataPage, DataPageHeader, DataPageHeaderV1, DataPageHeaderV2, Page};
use parquet2::schema::types::PrimitiveType;

verus! {

#[verifier::external_type_specification]
#[verifier::external_body]
pub struct ExPage(Page);

#[verifier::external_type_specification]
#[verifier::external_body]
pub struct ExPrimitiveType(PrimitiveType);

/// The finished page body before the outside page record wraps it: the
/// shared buffer, holding the validity block and then the plain value
/// region, and the exact accounting the page header needs.
pub struct PageBody {
    /// The validity block followed by the plain value region.
    pub buffer: Vec<u8>,
    /// Total rows in the column, nulls included.
    pub num_rows: usize,
    /// How many of those rows are null.
    pub null_count: usize,
    /// How many bytes of `buffer` the validity encoder wrote.
    pub definition_levels_byte_length: usize,
}

/// What a well-built page body for `rows` under `version` is: the buffer
/// holds exactly the page bytes, and every reported count and length is
/// the true one. In particular the reported validity block length equals
/// the number of bytes the validity encoder wrote before value encoding
/// began.
pub open spec fn body_ok<const N: usize>(
    body: PageBody,
    version: Version,
    rows: Seq<[u8; N]>,
) -> bool {
    &&& body.buffer@ == page_bytes(version, rows)
    &&& body.num_rows == rows.len()
    &&& body.null_count == null_count_of(rows)
    &&& body.definition_levels_byte_length == validity_block(version, validity_of(rows)).len()
}

/// Steps one to four of page production: derive the validity stream,
/// encode it into a fresh buffer, record the validity block's byte length,
/// and append the plain value region. Fails exactly when the v1 length
/// prefix cannot hold the encoded validity block.
pub fn build_page_body<const N: usize>(data: &[[u8; N]], version: Version) -> (r: Result<
    PageBody,
    PageError,
>)
    ensures
        r is Ok <==> !(version is V1 && hybrid_rle_of(validity_of(data@)).len() > u32::MAX),
        r matches Ok(body) ==> body_ok(body, version, data@),
        r matches Ok(body) ==> body.definition_levels_byte_length <= body.buffer@.len()
            && body.buffer@.subrange(0, body.definition_levels_byte_length as int)
            == validity_block(version, validity_of(data@)) && body.buffer@.subrange(
            body.definition_levels_byte_length as int,
            body.buffer@.len() as int,
        ) == plain_bytes(data@),
        r matches Err(e) ==> e == PageError::ValidityEncoding,
        data@.len() == 0 ==> hybrid_rle_of(validity_of(data@)).len() == 1,
        hybrid_rle_of(validity_of(data@)).len() <= 10 + (data@.len() + 7) / 8,
{
    let mut buffer: Vec<u8> = Vec::new();
    let (bits, null_count) = crate::validity::derive_validity(data);
    let length = data.len();
    match crate::levels::encode_bool_iter(&mut buffer, &bits, version) {
        Err(e) => Err(e),
        Ok(()) => {
            let definition_levels_byte_length = buffer.len();
            crate::plain::encode_plain(data, &mut buffer);
            proof {
                let block = validity_block(version, validity_of(data@));
                assert(buffer@.subrange(0, block.len() as int) =~= block);
                assert(buffer@.subrange(block.len() as int, buffer@.len() as int) =~= plain_bytes(
                    data@,
                ));
            }
            Ok(
                PageBody {
                    buffer,
                    num_rows: length,
                    null_count,
                    definition_levels_byte_length,
                },
            )
        },
    }
}

/// The orchestration is deterministic: any two page bodies built for the
/// same column and the same page version are byte-identical, in buffer and
/// in every reported count.
pub proof fn lemma_page_body_deterministic<const N: usize>(
    version: Version,
    rows: Seq<[u8; N]>,
    first: PageBody,
    second: PageBody,
)
    requires
        body_ok(first, version, rows),
        body_ok(second, version, rows),
    ensures
        first.buffer@ == second.buffer@,
        first.num_rows == second.num_rows,
        first.null_count == second.null_count,
        first.definition_levels_byte_length == second.definition_levels_byte_length,
{
}

/// Why producing a page for this column fails, if it does: the v1 length
/// prefix cannot hold the encoded validity block, or a count or length
/// does not fit the signed 32-bit fields of the page header. `None` means
/// a page is owed.
pub open spec fn page_failure<const N: usize>(version: Version, rows: Seq<[u8; N]>) -> Option<
    PageError,
> {
    if version is V1 && hybrid_rle_of(validity_of(rows)).len() > u32::MAX {
        Some(PageError::ValidityEncoding)
    } else if rows.len() > i32::MAX {
        Some(PageError::Assembly)
    } else if version is V2 && validity_block(version, validity_of(rows)).len() > i32::MAX {
        Some(PageError::Assembly)
    } else {
        None
    }
}

/// The v1 data page assembled from a finished buffer and its accounting.
/// `DataPage::new` only stores its arguments, so the page is a function of
/// them alone; its exact shape is only named here, and the trusted
/// assembler below ties the name to the real constructor.
pub uninterp spec fn assembled_v1_of(
    buffer: Seq<u8>,
    num_values: int,
    num_rows: int,
    type_: PrimitiveType,
) -> Page;

/// The v2 data page assembled from a finished buffer and its accounting,
/// named as [`assembled_v1_of`] is.
pub uninterp spec fn assembled_v2_of(
    buffer: Seq<u8>,
    num_values: int,
    num_nulls: int,
    num_rows: int,
    definition_levels_byte_length: int,
    type_: PrimitiveType,
) -> Page;

/// The page that a column must become: its page body wrapped in the page
/// record of the chosen version, with the true counts in the header.
pub open spec fn assembled_page_of<const N: usize>(
    version: Version,
    rows: Seq<[u8; N]>,
    type_: PrimitiveType,
) -> Page {
    match version {
        Version::V1 => assembled_v1_of(
            page_bytes(version, rows),
            rows.len() as int,
            rows.len() as int,
            type_,
        ),
        Version::V2 => assembled_v2_of(
            page_bytes(version, rows),
            rows.len() as int,
            null_count_of(rows) as int,
            rows.len() as int,
            validity_block(version, validity_of(rows)).len() as int,
            type_,
        ),
    }
}

/// The orchestrator is idempotent: the page owed for a column is a
/// function of the column, the page version and the type descriptor
/// alone, so two invocations on identical inputs yield the same page,
/// byte-identical buffer included.
pub proof fn lemma_page_deterministic<const N: usize>(
    version: Version,
    rows: Seq<[u8; N]>,
    type_: PrimitiveType,
    first: Page,
    second: Page,
)
    requires
        first == assembled_page_of(version, rows, type_),
        second == assembled_page_of(version, rows, type_),
    ensures
        first == second,
{
}

/// Relies on parquet2's `DataPage::new` and the v1 header record
/// (`parquet_format_safe`'s `DataPageHeader`): wraps the finished buffer
/// in a v1 data page whose header announces `num_values` values,
/// plain-encoded, with run-length-encoded definition and repetition
/// levels and no statistics, over a descriptor with one optional
/// definition level and no repetition, as the format prescribes for a
/// flat nullable column. `DataPage::new` only stores its arguments and
/// cannot fail.
#[verifier::external_body]
fn assemble_page_v1(buffer: Vec<u8>, num_values: i32, num_rows: usize, type_: PrimitiveType) -> (r:
    Page)
    ensures
        r == assembled_v1_of(buffer@, num_values as int, num_rows as int, type_),
{
    let header = DataPageHeader::V1(DataPageHeaderV1 {
        num_values,
        encoding: parquet2::encoding::Encoding::Plain.into(),
        definition_level_encoding: parquet2::encoding::Encoding::Rle.into(),
        repetition_level_encoding: parquet2::encoding::Encoding::Rle.into(),
        statistics: None,
    });
    let descriptor = Descriptor { primitive_type: type_, max_def_level: 1, max_rep_level: 0 };
    Page::Data(DataPage::new(header, buffer, descriptor, Some(num_rows)))
}

/// Relies on parquet2's `DataPage::new` and the v2 header record
/// (`parquet_format_safe`'s `DataPageHeaderV2`): wraps the finished buffer
/// in a v2 data page whose header carries the given counts and validity
/// block length, announces plain-encoded uncompressed values with no
/// repetition levels and no statistics, over a descriptor with one
/// optional definition level and no repetition, as the format prescribes
/// for a flat nullable column. `DataPage::new` only stores its arguments
/// and cannot fail.
#[verifier::external_body]
fn assemble_page_v2(
    buffer: Vec<u8>,
    num_values: i32,
    num_nulls: i32,
    num_rows: i32,
    definition_levels_byte_length: i32,
    type_: PrimitiveType,
) -> (r: Page)
    ensures
        r == assembled_v2_of(
            buffer@,
            num_values as int,
            num_nulls as int,
            num_rows as int,
            definition_levels_byte_length as int,
            type_,
        ),
{
    let header = DataPageHeader::V2(DataPageHeaderV2 {
        num_values,
        num_nulls,
        num_rows,
        encoding: parquet2::encoding::Encoding::Plain.into(),
        definition_levels_byte_length,
        repetition_levels_byte_length: 0,
        is_compressed: Some(false),
        statistics: None,
    });
    let descriptor = Descriptor { primitive_type: type_, max_def_level: 1, max_rep_level: 0 };
    Page::Data(DataPage::new(header, buffer, descriptor, Some(num_rows as usize)))
}

/// Turns one column of fixed-width byte values into a finished data page:
/// [`assembled_page_of`] the column, holding the validity block, then the
/// plain value region, wrapped in the page record of the chosen version
/// with the true counts. Every column whose length fits the header's
/// 32-bit row count yields a page; an empty column does too. Fails, with
/// the failure [`page_failure`] names, exactly when the encoded validity
/// block or a count cannot be represented; no failure of any other kind
/// exists, and nothing is retried.
pub fn bytes_to_page<const N: usize>(
    data: &[[u8; N]],
    options: WriteOptions,
    type_: PrimitiveType,
) -> (r: Result<Page, PageError>)
    ensures
        r is Ok <==> page_failure::<N>(options.version, data@) is None,
        r matches Ok(p) ==> p == assembled_page_of(options.version, data@, type_),
        r matches Err(e) ==> Some(e) == page_failure::<N>(options.version, data@),
        data@.len() <= i32::MAX ==> r is Ok,
        data@.len() == 0 ==> r is Ok,
{
    let body = match build_page_body(data, options.version) {
        Err(e) => {
            return Err(e);
        },
        Ok(body) => body,
    };
    if body.num_rows > i32::MAX as usize {
        return Err(PageError::Assembly);
    }
    proof {
        crate::plain::lemma_value_region_length::<N>(data@);
    }
    let total = body.num_rows;
    match options.version {
        Version::V1 => Ok(assemble_page_v1(body.buffer, total as i32, total, type_)),
        Version::V2 => {
            if body.definition_levels_byte_length > i32::MAX as usize {
                return Err(PageError::Assembly);
            }
            Ok(
                assemble_page_v2(
                    body.buffer,
                    total as i32,
                    body.null_count as i32,
                    total as i32,
                    body.definition_levels_byte_length as i32,
                    type_,
                ),
            )
        },
    }
}

} // verus!
