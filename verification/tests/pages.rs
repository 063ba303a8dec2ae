use fixed_len_bytes::{
    build_page_body, bytes_to_page, derive_validity, encode_bool_iter, encode_plain, PageError,
    Version, WriteOptions,
};
use parquet2::encoding::hybrid_rle::HybridRleDecoder;
use parquet2::page::{DataPage, DataPageHeader, Page};
use parquet2::schema::types::{PhysicalType, PrimitiveType};

const ROWS: [[u8; 4]; 3] = [
    [0x01, 0x02, 0x03, 0x04],
    [0x05, 0x06, 0x07, 0x08],
    [0x09, 0x0A, 0x0B, 0x0C],
];

fn fixed_type(width: usize) -> PrimitiveType {
    PrimitiveType::from_physical("col".to_string(), PhysicalType::FixedLenByteArray(width))
}

fn data_page(page: Page) -> DataPage {
    match page {
        Page::Data(dp) => dp,
        Page::Dict(_) => panic!("expected a data page"),
    }
}

#[test]
fn validity_derivation_reports_every_row_present() {
    let (bits, nulls) = derive_validity(&ROWS);
    assert_eq!(bits, vec![true, true, true]);
    assert_eq!(nulls, 0);
}

#[test]
fn validity_derivation_of_empty_column() {
    let empty: [[u8; 4]; 0] = [];
    let (bits, nulls) = derive_validity(&empty);
    assert!(bits.is_empty());
    assert_eq!(nulls, 0);
}

#[test]
fn plain_encoding_appends_raw_bytes_in_row_order() {
    let mut buffer = vec![0xAAu8];
    encode_plain(&ROWS, &mut buffer);
    let mut expected = vec![0xAAu8];
    expected.extend_from_slice(&[1, 2, 3, 4, 5, 6, 7, 8, 9, 10, 11, 12]);
    assert_eq!(buffer, expected);
}

#[test]
fn plain_region_length_is_row_count_times_width() {
    let rows: [[u8; 2]; 5] = [[1, 2], [3, 4], [5, 6], [7, 8], [9, 10]];
    let mut buffer = Vec::new();
    encode_plain(&rows, &mut buffer);
    assert_eq!(buffer.len(), 5 * 2);
    let (bits, nulls) = derive_validity(&rows);
    assert_eq!(bits.len() - nulls, 5);
}

#[test]
fn validity_block_v1_is_length_prefixed() {
    let mut buffer = Vec::new();
    let bits = vec![true, true, true];
    encode_bool_iter(&mut buffer, &bits, Version::V1).unwrap();
    assert_eq!(buffer, vec![0x02, 0x00, 0x00, 0x00, 0x03, 0x07]);
}

#[test]
fn validity_block_v2_is_bare() {
    let mut buffer = Vec::new();
    let bits = vec![true, true, true];
    encode_bool_iter(&mut buffer, &bits, Version::V2).unwrap();
    assert_eq!(buffer, vec![0x03, 0x07]);
}

#[test]
fn validity_block_crosses_byte_boundary() {
    let mut buffer = Vec::new();
    let bits = vec![true; 9];
    encode_bool_iter(&mut buffer, &bits, Version::V2).unwrap();
    assert_eq!(buffer, vec![0x05, 0xFF, 0x01]);
}

#[test]
fn page_body_reports_validity_block_length_exactly() {
    let body = build_page_body(&ROWS, Version::V1).unwrap();
    assert_eq!(body.definition_levels_byte_length, 6);
    assert_eq!(&body.buffer[..6], &[0x02, 0x00, 0x00, 0x00, 0x03, 0x07]);
    assert_eq!(&body.buffer[6..], &[1, 2, 3, 4, 5, 6, 7, 8, 9, 10, 11, 12]);
    assert_eq!(body.num_rows, 3);
    assert_eq!(body.null_count, 0);

    let body = build_page_body(&ROWS, Version::V2).unwrap();
    assert_eq!(body.definition_levels_byte_length, 2);
    assert_eq!(&body.buffer[..2], &[0x03, 0x07]);
    assert_eq!(&body.buffer[2..], &[1, 2, 3, 4, 5, 6, 7, 8, 9, 10, 11, 12]);
}

#[test]
fn three_fixed_rows_v1_scenario() {
    let options = WriteOptions { version: Version::V1 };
    let page = bytes_to_page(&ROWS, options, fixed_type(4)).unwrap();
    let dp = data_page(page);
    let header = match dp.header() {
        DataPageHeader::V1(h) => h,
        DataPageHeader::V2(_) => panic!("expected a v1 header"),
    };
    assert_eq!(header.num_values, 3);
    assert_eq!(
        dp.buffer(),
        &[0x02, 0x00, 0x00, 0x00, 0x03, 0x07, 1, 2, 3, 4, 5, 6, 7, 8, 9, 10, 11, 12]
    );
}

#[test]
fn three_fixed_rows_v2_scenario() {
    let options = WriteOptions { version: Version::V2 };
    let page = bytes_to_page(&ROWS, options, fixed_type(4)).unwrap();
    let dp = data_page(page);
    let header = match dp.header() {
        DataPageHeader::V2(h) => h,
        DataPageHeader::V1(_) => panic!("expected a v2 header"),
    };
    assert_eq!(header.num_values, 3);
    assert_eq!(header.num_rows, 3);
    assert_eq!(header.num_nulls, 0);
    assert_eq!(header.definition_levels_byte_length, 2);
    assert_eq!(
        dp.buffer(),
        &[0x03, 0x07, 1, 2, 3, 4, 5, 6, 7, 8, 9, 10, 11, 12]
    );
}

#[test]
fn produced_page_round_trips_through_the_readers_decoder_v1() {
    let options = WriteOptions { version: Version::V1 };
    let page = bytes_to_page(&ROWS, options, fixed_type(4)).unwrap();
    let dp = data_page(page);
    let buffer = dp.buffer();

    let prefix: [u8; 4] = buffer[..4].try_into().unwrap();
    let rle_len = u32::from_le_bytes(prefix) as usize;
    let validity = &buffer[4..4 + rle_len];
    let levels: Vec<u32> = HybridRleDecoder::try_new(validity, 1, 3)
        .unwrap()
        .map(|r| r.unwrap())
        .collect();
    assert_eq!(levels, vec![1, 1, 1]);

    let values = &buffer[4 + rle_len..];
    for (i, chunk) in values.chunks(4).enumerate() {
        assert_eq!(chunk, &ROWS[i]);
    }
    assert_eq!(values.len(), 3 * 4);
}

#[test]
fn produced_page_round_trips_through_the_readers_decoder_v2() {
    let options = WriteOptions { version: Version::V2 };
    let page = bytes_to_page(&ROWS, options, fixed_type(4)).unwrap();
    let dp = data_page(page);
    let buffer = dp.buffer();
    let dl_len = match dp.header() {
        DataPageHeader::V2(h) => h.definition_levels_byte_length as usize,
        DataPageHeader::V1(_) => panic!("expected a v2 header"),
    };

    let levels: Vec<u32> = HybridRleDecoder::try_new(&buffer[..dl_len], 1, 3)
        .unwrap()
        .map(|r| r.unwrap())
        .collect();
    assert_eq!(levels, vec![1, 1, 1]);

    let values = &buffer[dl_len..];
    for (i, chunk) in values.chunks(4).enumerate() {
        assert_eq!(chunk, &ROWS[i]);
    }
    assert_eq!(values.len(), 3 * 4);
}

#[test]
fn identical_inputs_give_byte_identical_pages() {
    for version in [Version::V1, Version::V2] {
        let options = WriteOptions { version };
        let first = data_page(bytes_to_page(&ROWS, options, fixed_type(4)).unwrap());
        let second = data_page(bytes_to_page(&ROWS, options, fixed_type(4)).unwrap());
        assert_eq!(first.buffer(), second.buffer());
        assert_eq!(first.num_values(), second.num_values());

        let one = build_page_body(&ROWS, version).unwrap();
        let two = build_page_body(&ROWS, version).unwrap();
        assert_eq!(one.buffer, two.buffer);
        assert_eq!(one.num_rows, two.num_rows);
        assert_eq!(one.null_count, two.null_count);
        assert_eq!(
            one.definition_levels_byte_length,
            two.definition_levels_byte_length
        );
    }
}

#[test]
fn empty_column_still_yields_a_well_formed_page_v1() {
    let empty: [[u8; 4]; 0] = [];
    let options = WriteOptions { version: Version::V1 };
    let page = bytes_to_page(&empty, options, fixed_type(4)).unwrap();
    let dp = data_page(page);
    let header = match dp.header() {
        DataPageHeader::V1(h) => h,
        DataPageHeader::V2(_) => panic!("expected a v1 header"),
    };
    assert_eq!(header.num_values, 0);
    assert_eq!(dp.buffer(), &[0x01, 0x00, 0x00, 0x00, 0x01]);
}

#[test]
fn empty_column_still_yields_a_well_formed_page_v2() {
    let empty: [[u8; 4]; 0] = [];
    let options = WriteOptions { version: Version::V2 };
    let page = bytes_to_page(&empty, options, fixed_type(4)).unwrap();
    let dp = data_page(page);
    let header = match dp.header() {
        DataPageHeader::V2(h) => h,
        DataPageHeader::V1(_) => panic!("expected a v2 header"),
    };
    assert_eq!(header.num_values, 0);
    assert_eq!(header.num_rows, 0);
    assert_eq!(header.num_nulls, 0);
    assert_eq!(header.definition_levels_byte_length, 1);
    assert_eq!(dp.buffer(), &[0x01]);
}

#[test]
fn page_errors_compare_by_kind() {
    assert_eq!(PageError::ValidityEncoding, PageError::ValidityEncoding);
    assert_ne!(PageError::ValidityEncoding, PageError::Assembly);
}
