//! The data model: VLR records, decoded GeoTIFF key values, and the error
//! taxonomy, together with their mathematical views.

use vstd::prelude::*;

verus! {

/// The successful output of a resolution: the horizontal EPSG code and the
/// optional vertical EPSG code.
pub type EPSG = (u16, Option<u16>);

pub type CrsResult<T> = Result<T, CrsError>;

/// One variable-length record of the container, reduced to the fields the
/// resolution logic reads.
pub struct VlrRecord {
    /// The namespace under which the record was registered.
    pub user_id: String,
    /// The numeric record kind within that namespace.
    pub record_id: u16,
    /// The opaque payload.
    pub data: Vec<u8>,
}

/// The mathematical view of a [`VlrRecord`].
pub struct VlrRecordV {
    pub user_id: Seq<char>,
    pub record_id: u16,
    pub data: Seq<u8>,
}

impl View for VlrRecord {
    type V = VlrRecordV;

    open spec fn view(&self) -> VlrRecordV {
        VlrRecordV { user_id: self.user_id@, record_id: self.record_id, data: self.data@ }
    }
}

/// The value carried by one GeoTIFF key entry.
///
/// A sequence of IEEE-754 doubles is held as the little-endian 64-bit patterns
/// read from the auxiliary buffer; interpreting a pattern as a floating-point
/// number is the caller's concern.
#[derive(Debug, Clone, PartialEq)]
pub enum GeoTiffData {
    /// An unsigned 16-bit value stored inline in the key entry.
    Numeric(u16),
    /// Text read from the ASCII auxiliary buffer, one character per byte.
    Text(String),
    /// 64-bit patterns read from the double auxiliary buffer.
    Doubles(Vec<u64>),
}

/// The mathematical view of a [`GeoTiffData`].
pub enum GeoTiffDataV {
    Numeric(u16),
    Text(Seq<char>),
    Doubles(Seq<u64>),
}

impl View for GeoTiffData {
    type V = GeoTiffDataV;

    open spec fn view(&self) -> GeoTiffDataV {
        match self {
            GeoTiffData::Numeric(v) => GeoTiffDataV::Numeric(*v),
            GeoTiffData::Text(s) => GeoTiffDataV::Text(s@),
            GeoTiffData::Doubles(d) => GeoTiffDataV::Doubles(d@),
        }
    }
}

/// Why a resolution failed; every failure is terminal and surfaces unchanged.
#[derive(Debug, Clone, PartialEq)]
pub enum CrsError {
    /// Neither a WKT nor a GeoTIFF CRS record was found.
    NoCrs,
    /// The GeoTIFF model-type key names a user-defined, non-catalogued system.
    UserDefinedCrs,
    /// The WKT text did not end in a bounded-length numeric code.
    UnreadableWktCrs,
    /// The GeoTIFF directory is present but semantically unresolvable.
    UnreadableGeotiffCrs,
    /// A semantically significant key's value had an unexpected representation.
    UndefinedDataForGeoTiffKey(u16),
    /// The model-type key decoded as text or doubles, which is not interpreted.
    UnimplementedForGeoTiffAsciiAndStringData(GeoTiffData),
    /// A buffer read ran past the end of its source payload.
    Io,
}

/// The mathematical view of a [`CrsError`].
pub enum CrsErrorV {
    NoCrs,
    UserDefinedCrs,
    UnreadableWktCrs,
    UnreadableGeotiffCrs,
    UndefinedDataForGeoTiffKey(u16),
    UnimplementedForGeoTiffAsciiAndStringData(GeoTiffDataV),
    Io,
}

impl View for CrsError {
    type V = CrsErrorV;

    open spec fn view(&self) -> CrsErrorV {
        match self {
            CrsError::NoCrs => CrsErrorV::NoCrs,
            CrsError::UserDefinedCrs => CrsErrorV::UserDefinedCrs,
            CrsError::UnreadableWktCrs => CrsErrorV::UnreadableWktCrs,
            CrsError::UnreadableGeotiffCrs => CrsErrorV::UnreadableGeotiffCrs,
            CrsError::UndefinedDataForGeoTiffKey(id) => CrsErrorV::UndefinedDataForGeoTiffKey(*id),
            CrsError::UnimplementedForGeoTiffAsciiAndStringData(d) => (
                CrsErrorV::UnimplementedForGeoTiffAsciiAndStringData(d@)
            ),
            CrsError::Io => CrsErrorV::Io,
        }
    }
}

/// The view of an optional byte buffer.
pub open spec fn buf_view(o: Option<Vec<u8>>) -> Option<Seq<u8>> {
    match o {
        Option::Some(b) => Option::Some(b@),
        Option::None => Option::None,
    }
}

pub(crate) fn copy_bytes(v: &Vec<u8>) -> (r: Vec<u8>)
    ensures
        r@ == v@,
{
    let mut r: Vec<u8> = Vec::new();
    let mut i: usize = 0;
    while i < v.len()
        invariant
            i <= v@.len(),
            r@ == v@.take(i as int),
        decreases v@.len() - i,
    {
        r.push(v[i]);
        i = i + 1;
        proof {
            assert(r@ =~= v@.take(i as int));
        }
    }
    proof {
        assert(v@.take(v@.len() as int) =~= v@);
    }
    r
}

fn copy_u64s(v: &Vec<u64>) -> (r: Vec<u64>)
    ensures
        r@ == v@,
{
    let mut r: Vec<u64> = Vec::new();
    let mut i: usize = 0;
    while i < v.len()
        invariant
            i <= v@.len(),
            r@ == v@.take(i as int),
        decreases v@.len() - i,
    {
        r.push(v[i]);
        i = i + 1;
        proof {
            assert(r@ =~= v@.take(i as int));
        }
    }
    proof {
        assert(v@.take(v@.len() as int) =~= v@);
    }
    r
}

impl GeoTiffData {
    /// An owned copy with the same view.
    pub fn dup(&self) -> (r: GeoTiffData)
        ensures
            r@ == self@,
    {
        match self {
            GeoTiffData::Numeric(v) => GeoTiffData::Numeric(*v),
            GeoTiffData::Text(s) => GeoTiffData::Text(s.clone()),
            GeoTiffData::Doubles(d) => GeoTiffData::Doubles(copy_u64s(d)),
        }
    }
}

} // verus!
