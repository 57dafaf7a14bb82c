//! Selecting the CRS-bearing VLR payloads and orchestrating the resolution:
//! format choice, decode, and the final result or error.

use vstd::prelude::*;

use crate::geotiff::geotiff_epsg;
use crate::geotiff::get_geotiff_epsg;
use crate::types::buf_view;
use crate::types::copy_bytes;
use crate::types::CrsError;
use crate::types::CrsErrorV;
use crate::types::CrsResult;
use crate::types::VlrRecord;
use crate::types::EPSG;
use crate::wkt::get_wkt_epsg;
use crate::wkt::wkt_epsg;

verus! {

/// The four payload slots a container may carry for its CRS: the WKT text,
/// the GeoTIFF key directory, and the GeoTIFF double and ASCII auxiliary
/// buffers.
pub struct CrsVlrs {
    pub wkt: Option<Vec<u8>>,
    pub directory: Option<Vec<u8>>,
    pub doubles: Option<Vec<u8>>,
    pub ascii: Option<Vec<u8>>,
}

/// What `str::to_lowercase` returns: a function of the characters alone.
pub uninterp spec fn lower_of(s: Seq<char>) -> Seq<char>;

/// Relies on str::to_lowercase: the lowercase equivalent of the string,
/// depending on its characters alone.
#[verifier::external_body]
fn lowercase(s: &str) -> (r: String)
    ensures
        r@ == lower_of(s@),
{
    s.to_lowercase()
}

/// Whether `s` names the projection namespace, compared case-insensitively.
pub open spec fn spec_projection_user_id(s: Seq<char>) -> bool {
    lower_of(s) == "lasf_projection"@
}

/// Whether `user_id` names the projection namespace, compared
/// case-insensitively.
pub fn is_projection_user_id(user_id: &str) -> (r: bool)
    ensures
        r == spec_projection_user_id(user_id@),
{
    let low = lowercase(user_id);
    let pat: String = "lasf_projection".to_owned();
    low == pat
}

/// Whether the record belongs in the slot for `rid`: its user id names the
/// projection namespace and its record id is `rid`.
pub open spec fn relevant(v: VlrRecord, rid: u16) -> bool {
    v.record_id == rid && spec_projection_user_id(v.user_id@)
}

/// The payload of the last record in `vlrs` that belongs in the slot for
/// `rid`, if any; a later record overwrites an earlier one.
pub open spec fn slot_data(vlrs: Seq<VlrRecord>, rid: u16) -> Option<Seq<u8>>
    decreases vlrs.len(),
{
    if vlrs.len() == 0 {
        Option::None
    } else if relevant(vlrs.last(), rid) {
        Option::Some(vlrs.last().data@)
    } else {
        slot_data(vlrs.drop_last(), rid)
    }
}

/// Appending one record either fills the slot it belongs to or leaves the
/// slots unchanged.
proof fn lemma_slot_data_push(s: Seq<VlrRecord>, v: VlrRecord, rid: u16)
    ensures
        slot_data(s.push(v), rid) == (if relevant(v, rid) {
            Option::Some(v.data@)
        } else {
            slot_data(s, rid)
        }),
{
    assert(s.push(v).last() == v);
    assert(s.push(v).drop_last() =~= s);
}

/// Scans every record and isolates the relevant payloads by record id, as
/// [`slot_data`] states for each of the four slots.
pub fn select_crs_vlrs(vlrs: &Vec<VlrRecord>) -> (r: CrsVlrs)
    ensures
        buf_view(r.wkt) == slot_data(vlrs@, 2112),
        buf_view(r.directory) == slot_data(vlrs@, 34735),
        buf_view(r.doubles) == slot_data(vlrs@, 34736),
        buf_view(r.ascii) == slot_data(vlrs@, 34737),
{
    let mut r = CrsVlrs { wkt: None, directory: None, doubles: None, ascii: None };
    let mut j: usize = 0;
    while j < vlrs.len()
        invariant
            j <= vlrs@.len(),
            buf_view(r.wkt) == slot_data(vlrs@.take(j as int), 2112),
            buf_view(r.directory) == slot_data(vlrs@.take(j as int), 34735),
            buf_view(r.doubles) == slot_data(vlrs@.take(j as int), 34736),
            buf_view(r.ascii) == slot_data(vlrs@.take(j as int), 34737),
        decreases vlrs@.len() - j,
    {
        let v = &vlrs[j];
        if is_projection_user_id(v.user_id.as_str()) {
            if v.record_id == 2112 {
                r.wkt = Some(copy_bytes(&v.data));
            } else if v.record_id == 34735 {
                r.directory = Some(copy_bytes(&v.data));
            } else if v.record_id == 34736 {
                r.doubles = Some(copy_bytes(&v.data));
            } else if v.record_id == 34737 {
                r.ascii = Some(copy_bytes(&v.data));
            }
        }
        proof {
            assert(vlrs@.take(j + 1) =~= vlrs@.take(j as int).push(vlrs@[j as int]));
            lemma_slot_data_push(vlrs@.take(j as int), vlrs@[j as int], 2112);
            lemma_slot_data_push(vlrs@.take(j as int), vlrs@[j as int], 34735);
            lemma_slot_data_push(vlrs@.take(j as int), vlrs@[j as int], 34736);
            lemma_slot_data_push(vlrs@.take(j as int), vlrs@[j as int], 34737);
        }
        j = j + 1;
    }
    proof {
        assert(vlrs@.take(vlrs@.len() as int) =~= vlrs@);
    }
    r
}

/// What a resolution returns on the VLR list `vlrs`: the WKT decode of the
/// WKT slot if present, else the GeoTIFF decode of the directory slot if
/// present, else the no-CRS failure.
pub open spec fn crs_from_vlrs(vlrs: Seq<VlrRecord>) -> Result<EPSG, CrsErrorV> {
    match slot_data(vlrs, 2112) {
        Option::Some(w) => wkt_epsg(w),
        Option::None => match slot_data(vlrs, 34735) {
            Option::Some(d) => geotiff_epsg(d, slot_data(vlrs, 34736), slot_data(vlrs, 34737)),
            Option::None => Result::Err(CrsErrorV::NoCrs),
        },
    }
}

/// Resolves the EPSG codes carried by a container's VLR list, exactly as
/// [`crs_from_vlrs`] states; the result is a function of the records alone.
pub fn parse_las_crs(vlrs: &Vec<VlrRecord>) -> (r: CrsResult<EPSG>)
    ensures
        match r {
            Result::Ok(v) => crs_from_vlrs(vlrs@) == Result::<EPSG, CrsErrorV>::Ok(v),
            Result::Err(e) => crs_from_vlrs(vlrs@) == Result::<EPSG, CrsErrorV>::Err(e@),
        },
{
    let slots = select_crs_vlrs(vlrs);
    match &slots.wkt {
        Some(w) => get_wkt_epsg(w),
        None => match &slots.directory {
            Some(d) => get_geotiff_epsg(d, &slots.doubles, &slots.ascii),
            None => Err(CrsError::NoCrs),
        },
    }
}

/// Whether the container header's informational "declares WKT CRS" flag
/// disagrees with what the VLR list actually carries. The mismatch is
/// diagnostic only; it never affects a resolution, whose result is a function
/// of the records alone.
pub fn crs_flag_mismatch(vlrs: &Vec<VlrRecord>, has_wkt_crs: bool) -> (r: bool)
    ensures
        r == (has_wkt_crs != (slot_data(vlrs@, 2112) is Some)),
{
    let slots = select_crs_vlrs(vlrs);
    has_wkt_crs != slots.wkt.is_some()
}

/// No record of `vlrs` belongs in the slot for `rid`, so the slot stays
/// empty.
proof fn lemma_slot_data_none(vlrs: Seq<VlrRecord>, rid: u16)
    requires
        forall|i: int| 0 <= i < vlrs.len() ==> !relevant(vlrs[i], rid),
    ensures
        slot_data(vlrs, rid) is None,
    decreases vlrs.len(),
{
    if vlrs.len() > 0 {
        assert(!relevant(vlrs[vlrs.len() - 1], rid));
        assert forall|i: int| 0 <= i < vlrs.drop_last().len() implies !relevant(
            vlrs.drop_last()[i],
            rid,
        ) by {
            assert(vlrs.drop_last()[i] == vlrs[i]);
        }
        lemma_slot_data_none(vlrs.drop_last(), rid);
    }
}

/// Law: a VLR list with no record of the projection namespace — the empty
/// list included — resolves to the no-CRS failure.
pub proof fn lemma_no_crs(vlrs: Seq<VlrRecord>)
    requires
        forall|i: int| 0 <= i < vlrs.len() ==> !spec_projection_user_id(vlrs[i].user_id@),
    ensures
        crs_from_vlrs(vlrs) == Result::<EPSG, CrsErrorV>::Err(CrsErrorV::NoCrs),
{
    assert forall|i: int| 0 <= i < vlrs.len() implies !relevant(vlrs[i], 2112) by {}
    assert forall|i: int| 0 <= i < vlrs.len() implies !relevant(vlrs[i], 34735) by {}
    lemma_slot_data_none(vlrs, 2112);
    lemma_slot_data_none(vlrs, 34735);
}

/// Law: when a WKT CRS record is present, the resolution equals the WKT-only
/// decode of its payload; the GeoTIFF slots are never consulted.
pub proof fn lemma_wkt_priority(vlrs: Seq<VlrRecord>)
    requires
        slot_data(vlrs, 2112) is Some,
    ensures
        crs_from_vlrs(vlrs) == wkt_epsg(slot_data(vlrs, 2112).unwrap()),
{
}

} // verus!
