use las_crs::crs_flag_mismatch;
use las_crs::get_geotiff_epsg;
use las_crs::get_wkt_epsg;
use las_crs::is_projection_user_id;
use las_crs::parse_las_crs;
use las_crs::resolve_key_value;
use las_crs::select_crs_vlrs;
use las_crs::CrsError;
use las_crs::GeoTiffCRS;
use las_crs::GeoTiffData;
use las_crs::GeoTiffKeyEntry;
use las_crs::VlrRecord;

fn vlr(user_id: &str, record_id: u16, data: Vec<u8>) -> VlrRecord {
    VlrRecord { user_id: String::from(user_id), record_id, data }
}

fn entry_bytes(entries: &[(u16, u16, u16, u16)]) -> Vec<u8> {
    let mut d: Vec<u8> = Vec::new();
    for h in [1u16, 1, 0, entries.len() as u16] {
        d.extend_from_slice(&h.to_le_bytes());
    }
    for (id, tag, count, offset) in entries {
        for f in [*id, *tag, *count, *offset] {
            d.extend_from_slice(&f.to_le_bytes());
        }
    }
    d
}

#[test]
fn wkt_scan_finds_trailing_code() {
    let bytes = b"AUTHORITY[\"EPSG\",\"25832\"]]".to_vec();
    assert_eq!(get_wkt_epsg(&bytes), Ok((25832, None)));
}

#[test]
fn wkt_scan_accepts_code_at_very_end() {
    let bytes = b"EPSG:4326".to_vec();
    assert_eq!(get_wkt_epsg(&bytes), Ok((4326, None)));
}

#[test]
fn wkt_scan_empty_payload_is_zero() {
    // A payload with no digits within the bound ends permissively at zero.
    let bytes: Vec<u8> = Vec::new();
    assert_eq!(get_wkt_epsg(&bytes), Ok((0, None)));
}

#[test]
fn wkt_scan_fails_past_eight_trailing_bytes() {
    let bytes = b"AUTHORITY[\"EPSG\",\"4326\"]]         ".to_vec();
    assert_eq!(get_wkt_epsg(&bytes), Err(CrsError::UnreadableWktCrs));
}

#[test]
fn wkt_scan_stops_at_first_nondigit_after_digits() {
    // Only the trailing run of digits counts, not the digits further in.
    let bytes = b"\"25832\",77]]".to_vec();
    assert_eq!(get_wkt_epsg(&bytes), Ok((77, None)));
}

#[test]
fn user_id_comparison_is_case_insensitive() {
    assert!(is_projection_user_id("LASF_Projection"));
    assert!(is_projection_user_id("lasf_projection"));
    assert!(!is_projection_user_id("lasf_spec"));
}

#[test]
fn selector_fills_all_four_slots() {
    let vlrs = vec![
        vlr("LASF_Projection", 34735, vec![1]),
        vlr("lasf_projection", 34736, vec![2]),
        vlr("lasf_projection", 34737, vec![3]),
        vlr("lasf_projection", 2112, vec![4]),
        vlr("unrelated", 34736, vec![9]),
    ];
    let slots = select_crs_vlrs(&vlrs);
    assert_eq!(slots.wkt, Some(vec![4]));
    assert_eq!(slots.directory, Some(vec![1]));
    assert_eq!(slots.doubles, Some(vec![2]));
    assert_eq!(slots.ascii, Some(vec![3]));
}

#[test]
fn inline_value_resolves_to_numeric() {
    let r = resolve_key_value(2048, 0, 1, 4326, &None, &None);
    assert_eq!(r, Ok(GeoTiffData::Numeric(4326)));
}

#[test]
fn double_entry_resolves_against_aux_buffer() {
    let doubles = Some(12.5f64.to_le_bytes().to_vec());
    let r = resolve_key_value(2049, 34736, 1, 0, &doubles, &None);
    assert_eq!(r, Ok(GeoTiffData::Doubles(vec![12.5f64.to_bits()])));
}

#[test]
fn double_entry_offset_is_an_index_not_a_byte_offset() {
    let mut buf = 1.0f64.to_le_bytes().to_vec();
    buf.extend_from_slice(&2.5f64.to_le_bytes());
    let r = resolve_key_value(2049, 34736, 1, 1, &Some(buf), &None);
    assert_eq!(r, Ok(GeoTiffData::Doubles(vec![2.5f64.to_bits()])));
}

#[test]
fn missing_double_buffer_is_unreadable() {
    let r = resolve_key_value(2049, 34736, 1, 0, &None, &None);
    assert_eq!(r, Err(CrsError::UnreadableGeotiffCrs));
}

#[test]
fn truncated_double_buffer_is_io_error() {
    let doubles = Some(vec![0u8; 8]);
    let r = resolve_key_value(2049, 34736, 2, 0, &doubles, &None);
    assert_eq!(r, Err(CrsError::Io));
}

#[test]
fn ascii_entry_resolves_by_byte_offset() {
    let ascii = Some(b"xxEPSG".to_vec());
    let r = resolve_key_value(2049, 34737, 4, 2, &None, &ascii);
    assert_eq!(r, Ok(GeoTiffData::Text(String::from("EPSG"))));
}

#[test]
fn ascii_bytes_map_one_to_one_to_char_codes() {
    // Bytes above 127 become the code points of equal value, never a
    // multi-byte decode of the buffer.
    let ascii = Some(vec![0xE9u8]);
    let r = resolve_key_value(2049, 34737, 1, 0, &None, &ascii);
    assert_eq!(r, Ok(GeoTiffData::Text(String::from("\u{e9}"))));
}

#[test]
fn missing_ascii_buffer_is_unreadable() {
    let r = resolve_key_value(2049, 34737, 1, 0, &None, &None);
    assert_eq!(r, Err(CrsError::UnreadableGeotiffCrs));
}

#[test]
fn truncated_ascii_buffer_is_io_error() {
    let ascii = Some(b"EP".to_vec());
    let r = resolve_key_value(2049, 34737, 3, 0, &None, &ascii);
    assert_eq!(r, Err(CrsError::Io));
}

#[test]
fn unknown_location_tag_is_undefined_data() {
    let r = resolve_key_value(1024, 5, 1, 0, &None, &None);
    assert_eq!(r, Err(CrsError::UndefinedDataForGeoTiffKey(1024)));
}

#[test]
fn entry_read_decodes_all_four_fields() {
    let dir = entry_bytes(&[(1024, 0, 1, 2)]);
    let e = GeoTiffKeyEntry::read_from(&dir, 0, &None, &None).unwrap();
    assert_eq!(e.id, 1024);
    assert_eq!(e.data, GeoTiffData::Numeric(2));
}

#[test]
fn entry_read_past_end_is_io_error() {
    let dir = entry_bytes(&[(1024, 0, 1, 2)]);
    let r = GeoTiffKeyEntry::read_from(&dir, 1, &None, &None);
    assert!(matches!(r, Err(CrsError::Io)));
}

#[test]
fn directory_read_collects_entries_in_order() {
    let dir = entry_bytes(&[(1024, 0, 1, 2), (2048, 0, 1, 4326)]);
    let crs = GeoTiffCRS::read_from(&dir, &None, &None, 2).unwrap();
    assert_eq!(crs.entries.len(), 2);
    assert_eq!(crs.entries[0].id, 1024);
    assert_eq!(crs.entries[1].id, 2048);
    assert_eq!(crs.entries[1].data, GeoTiffData::Numeric(4326));
}

#[test]
fn model_type_as_text_is_unimplemented() {
    let dir = entry_bytes(&[(1024, 34737, 2, 0), (2048, 0, 1, 4326)]);
    let ascii = Some(b"ab".to_vec());
    let r = get_geotiff_epsg(&dir, &None, &ascii);
    assert_eq!(
        r,
        Err(CrsError::UnimplementedForGeoTiffAsciiAndStringData(GeoTiffData::Text(
            String::from("ab"),
        ))),
    );
}

#[test]
fn model_type_with_unsupported_numeric_is_unimplemented() {
    let dir = entry_bytes(&[(1024, 0, 1, 5), (2048, 0, 1, 4326)]);
    let r = get_geotiff_epsg(&dir, &None, &None);
    assert_eq!(
        r,
        Err(CrsError::UnimplementedForGeoTiffAsciiAndStringData(GeoTiffData::Numeric(5))),
    );
}

#[test]
fn horizontal_key_with_text_value_is_undefined_data() {
    let dir = entry_bytes(&[(1024, 0, 1, 1), (3072, 34737, 2, 0)]);
    let ascii = Some(b"ab".to_vec());
    let r = get_geotiff_epsg(&dir, &None, &ascii);
    assert_eq!(r, Err(CrsError::UndefinedDataForGeoTiffKey(3072)));
}

#[test]
fn vertical_key_with_doubles_value_is_undefined_data() {
    let dir = entry_bytes(&[(1024, 0, 1, 1), (2048, 0, 1, 4326), (4096, 34736, 1, 0)]);
    let doubles = Some(5773.0f64.to_le_bytes().to_vec());
    let r = get_geotiff_epsg(&dir, &doubles, &None);
    assert_eq!(r, Err(CrsError::UndefinedDataForGeoTiffKey(4096)));
}

#[test]
fn ignored_keys_do_not_disturb_the_result() {
    let dir = entry_bytes(&[
        (1024, 0, 1, 2),
        (1025, 0, 1, 1),
        (2049, 34737, 3, 0),
        (2048, 0, 1, 4326),
    ]);
    let ascii = Some(b"deg".to_vec());
    assert_eq!(get_geotiff_epsg(&dir, &None, &ascii), Ok((4326, None)));
}

#[test]
fn flag_mismatch_is_purely_diagnostic() {
    let with_wkt = vec![vlr("lasf_projection", 2112, b"4326".to_vec())];
    let without: Vec<VlrRecord> = Vec::new();
    assert!(crs_flag_mismatch(&with_wkt, false));
    assert!(!crs_flag_mismatch(&with_wkt, true));
    assert!(crs_flag_mismatch(&without, true));
    assert!(!crs_flag_mismatch(&without, false));
    // The flag has no bearing on the resolution itself.
    assert_eq!(parse_las_crs(&with_wkt), Ok((4326, None)));
}

#[test]
fn empty_directory_is_unreadable() {
    let dir = entry_bytes(&[]);
    assert_eq!(get_geotiff_epsg(&dir, &None, &None), Err(CrsError::UnreadableGeotiffCrs));
}

#[test]
fn zero_count_double_entry_reads_nothing() {
    // With nothing to read, even a far-out offset stays in bounds.
    let doubles = Some(Vec::new());
    let r = resolve_key_value(2049, 34736, 0, 500, &doubles, &None);
    assert_eq!(r, Ok(GeoTiffData::Doubles(Vec::new())));
}

#[test]
fn zero_count_ascii_entry_reads_nothing() {
    let ascii = Some(Vec::new());
    let r = resolve_key_value(2049, 34737, 0, 500, &None, &ascii);
    assert_eq!(r, Ok(GeoTiffData::Text(String::new())));
}

#[test]
fn wkt_code_of_eight_digits_is_reduced_to_sixteen_bits() {
    let bytes = b"x12345678".to_vec();
    assert_eq!(get_wkt_epsg(&bytes), Ok((24910, None)));
    assert_eq!(12345678 % 65536, 24910);
}

#[test]
fn wkt_run_of_nine_digits_exceeds_the_bound() {
    let bytes = b"123456789".to_vec();
    assert_eq!(get_wkt_epsg(&bytes), Err(CrsError::UnreadableWktCrs));
}
