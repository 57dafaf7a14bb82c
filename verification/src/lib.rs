//! Extraction of the EPSG coordinate-reference-system identifiers embedded in
//! the variable-length records (VLRs) of a LAS point-cloud container.
//!
//! The reference system may be encoded in two mutually exclusive ways: a
//! textual well-known-text (WKT) description ending in an authority code, or a
//! compact binary GeoTIFF key directory referencing auxiliary numeric and text
//! payloads. The library selects the relevant records, decodes whichever
//! encoding is present, and returns the horizontal EPSG code together with an
//! optional vertical code, or a precise error.

mod geotiff;
mod le;
mod resolve;
mod types;
mod wkt;

pub use geotiff::decode_entries;
pub use geotiff::entries_view;
pub use geotiff::geotiff_decode;
pub use geotiff::geotiff_epsg;
pub use geotiff::get_geotiff_epsg;
pub use geotiff::interpret_entries;
pub use geotiff::lemma_truncated_aux_io;
pub use geotiff::lemma_truncated_directory_io;
pub use geotiff::read_entry;
pub use geotiff::resolve_key_value;
pub use geotiff::resolve_value;
pub use geotiff::GeoTiffCRS;
pub use geotiff::GeoTiffKeyEntry;
pub use geotiff::GeoTiffKeyEntryV;
pub use le::u16_le;
pub use le::u64_le;
pub use resolve::crs_flag_mismatch;
pub use resolve::crs_from_vlrs;
pub use resolve::is_projection_user_id;
pub use resolve::lemma_no_crs;
pub use resolve::lemma_wkt_priority;
pub use resolve::lower_of;
pub use resolve::parse_las_crs;
pub use resolve::relevant;
pub use resolve::select_crs_vlrs;
pub use resolve::slot_data;
pub use resolve::spec_projection_user_id;
pub use resolve::CrsVlrs;
pub use types::CrsError;
pub use types::CrsErrorV;
pub use types::CrsResult;
pub use types::EPSG;
pub use types::GeoTiffData;
pub use types::GeoTiffDataV;
pub use types::VlrRecord;
pub use types::VlrRecordV;
pub use wkt::get_wkt_epsg;
pub use wkt::wkt_epsg;
pub use wkt::wkt_scan;
