//! Parsing the GeoTIFF key directory and resolving each key entry's value
//! against the auxiliary double and ASCII payload buffers.

use vstd::prelude::*;

use crate::le::read_u16_le;
use crate::le::read_u64_le;
use crate::le::u16_le;
use crate::le::u64_le;
use crate::types::buf_view;
use crate::types::CrsError;
use crate::types::CrsErrorV;
use crate::types::CrsResult;
use crate::types::GeoTiffData;
use crate::types::GeoTiffDataV;
use crate::types::EPSG;

verus! {

/// One decoded key of the directory: its id and its resolved value.
#[derive(Debug)]
pub struct GeoTiffKeyEntry {
    pub id: u16,
    pub data: GeoTiffData,
}

/// The mathematical view of a [`GeoTiffKeyEntry`].
pub struct GeoTiffKeyEntryV {
    pub id: u16,
    pub data: GeoTiffDataV,
}

impl View for GeoTiffKeyEntry {
    type V = GeoTiffKeyEntryV;

    open spec fn view(&self) -> GeoTiffKeyEntryV {
        GeoTiffKeyEntryV { id: self.id, data: self.data@ }
    }
}

/// The decoded directory: its entries in on-disk order.
#[derive(Debug)]
pub struct GeoTiffCRS {
    pub entries: Vec<GeoTiffKeyEntry>,
}

/// The views of a sequence of decoded entries.
pub open spec fn entries_view(v: Vec<GeoTiffKeyEntry>) -> Seq<GeoTiffKeyEntryV> {
    v@.map_values(|e: GeoTiffKeyEntry| e@)
}

impl View for GeoTiffCRS {
    type V = Seq<GeoTiffKeyEntryV>;

    open spec fn view(&self) -> Seq<GeoTiffKeyEntryV> {
        entries_view(self.entries)
    }
}

/// The value of one raw entry `(id, tag, count, offset)` against the optional
/// auxiliary buffers.
///
/// Tag `0` takes `offset` as the inline value. Tag `34736` takes `offset` as
/// an index into the double buffer (scaled by eight bytes) and reads `count`
/// little-endian 64-bit values. Tag `34737` takes `offset` as a byte offset
/// into the ASCII buffer and reads `count` bytes, one character per byte. Any
/// other tag is undefined for the key.
pub open spec fn resolve_value(
    id: u16,
    tag: u16,
    count: u16,
    offset: u16,
    dbl: Option<Seq<u8>>,
    asc: Option<Seq<u8>>,
) -> Result<GeoTiffDataV, CrsErrorV> {
    if tag == 0 {
        Result::Ok(GeoTiffDataV::Numeric(offset))
    } else if tag == 34736 {
        match dbl {
            Option::None => Result::Err(CrsErrorV::UnreadableGeotiffCrs),
            Option::Some(d) => if count > 0 && offset * 8 + count * 8 > d.len() {
                Result::Err(CrsErrorV::Io)
            } else {
                Result::Ok(
                    GeoTiffDataV::Doubles(
                        Seq::new(count as nat, |k: int| u64_le(d, offset * 8 + 8 * k)),
                    ),
                )
            },
        }
    } else if tag == 34737 {
        match asc {
            Option::None => Result::Err(CrsErrorV::UnreadableGeotiffCrs),
            Option::Some(a) => if count > 0 && offset + count > a.len() {
                Result::Err(CrsErrorV::Io)
            } else {
                Result::Ok(
                    GeoTiffDataV::Text(Seq::new(count as nat, |k: int| a[offset + k] as char)),
                )
            },
        }
    } else {
        Result::Err(CrsErrorV::UndefinedDataForGeoTiffKey(id))
    }
}

/// The decoded entry at slot `i` of the directory `d`: the four little-endian
/// 16-bit fields at byte `8 + 8 * i`, with the value resolved.
pub open spec fn read_entry(
    d: Seq<u8>,
    dbl: Option<Seq<u8>>,
    asc: Option<Seq<u8>>,
    i: nat,
) -> Result<GeoTiffKeyEntryV, CrsErrorV> {
    let pos = 8 + i * 8;
    if pos + 8 > d.len() {
        Result::Err(CrsErrorV::Io)
    } else {
        match resolve_value(
            u16_le(d, pos as int),
            u16_le(d, pos as int + 2),
            u16_le(d, pos as int + 4),
            u16_le(d, pos as int + 6),
            dbl,
            asc,
        ) {
            Result::Ok(v) => Result::Ok(GeoTiffKeyEntryV { id: u16_le(d, pos as int), data: v }),
            Result::Err(e) => Result::Err(e),
        }
    }
}

/// The entries of the directory `d` from slot `i` up to `count`, or the first
/// failure in slot order.
pub open spec fn decode_entries(
    d: Seq<u8>,
    dbl: Option<Seq<u8>>,
    asc: Option<Seq<u8>>,
    i: nat,
    count: nat,
) -> Result<Seq<GeoTiffKeyEntryV>, CrsErrorV>
    decreases count - i,
{
    if i >= count {
        Result::Ok(Seq::empty())
    } else {
        match read_entry(d, dbl, asc, i) {
            Result::Err(e) => Result::Err(e),
            Result::Ok(v) => match decode_entries(d, dbl, asc, i + 1, count) {
                Result::Err(e) => Result::Err(e),
                Result::Ok(rest) => Result::Ok(seq![v] + rest),
            },
        }
    }
}

/// The whole directory decode: an eight-byte header whose fourth field is the
/// entry count, followed by that many eight-byte entries.
pub open spec fn geotiff_decode(d: Seq<u8>, dbl: Option<Seq<u8>>, asc: Option<Seq<u8>>) -> Result<
    Seq<GeoTiffKeyEntryV>,
    CrsErrorV,
> {
    if d.len() < 8 {
        Result::Err(CrsErrorV::Io)
    } else {
        decode_entries(d, dbl, asc, 0, u16_le(d, 6) as nat)
    }
}

/// The semantic scan of the decoded entries from slot `i` on, with the
/// horizontal and vertical codes stored so far.
///
/// Key `1024` is the model type: zero is unresolvable, one to three are
/// accepted, `32767` is user-defined, anything else is uninterpreted. Keys
/// `3072` and `2048` store the horizontal code (the last one in slot order
/// wins), key `4096` the vertical code; all three demand a numeric value.
/// Other keys are ignored.
pub open spec fn interpret_entries(
    entries: Seq<GeoTiffKeyEntryV>,
    i: nat,
    hor: Option<u16>,
    vert: Option<u16>,
) -> Result<EPSG, CrsErrorV>
    decreases entries.len() - i,
{
    if i >= entries.len() {
        match hor {
            Option::Some(h) => Result::Ok((h, vert)),
            Option::None => Result::Err(CrsErrorV::UnreadableGeotiffCrs),
        }
    } else {
        let e = entries[i as int];
        if e.id == 1024 {
            match e.data {
                GeoTiffDataV::Numeric(v) => if v == 0 {
                    Result::Err(CrsErrorV::UnreadableGeotiffCrs)
                } else if v == 1 || v == 2 || v == 3 {
                    interpret_entries(entries, i + 1, hor, vert)
                } else if v == 32767 {
                    Result::Err(CrsErrorV::UserDefinedCrs)
                } else {
                    Result::Err(CrsErrorV::UnimplementedForGeoTiffAsciiAndStringData(e.data))
                },
                _ => Result::Err(CrsErrorV::UnimplementedForGeoTiffAsciiAndStringData(e.data)),
            }
        } else if e.id == 3072 {
            match e.data {
                GeoTiffDataV::Numeric(v) => interpret_entries(
                    entries,
                    i + 1,
                    Option::Some(v),
                    vert,
                ),
                _ => Result::Err(CrsErrorV::UndefinedDataForGeoTiffKey(3072)),
            }
        } else if e.id == 2048 {
            match e.data {
                GeoTiffDataV::Numeric(v) => interpret_entries(
                    entries,
                    i + 1,
                    Option::Some(v),
                    vert,
                ),
                _ => Result::Err(CrsErrorV::UndefinedDataForGeoTiffKey(2048)),
            }
        } else if e.id == 4096 {
            match e.data {
                GeoTiffDataV::Numeric(v) => interpret_entries(
                    entries,
                    i + 1,
                    hor,
                    Option::Some(v),
                ),
                _ => Result::Err(CrsErrorV::UndefinedDataForGeoTiffKey(4096)),
            }
        } else {
            interpret_entries(entries, i + 1, hor, vert)
        }
    }
}

/// What the GeoTIFF path returns on the directory `d` with the optional
/// auxiliary buffers: the decode followed by the semantic scan.
pub open spec fn geotiff_epsg(d: Seq<u8>, dbl: Option<Seq<u8>>, asc: Option<Seq<u8>>) -> Result<
    EPSG,
    CrsErrorV,
> {
    match geotiff_decode(d, dbl, asc) {
        Result::Err(e) => Result::Err(e),
        Result::Ok(entries) => interpret_entries(entries, 0, Option::None, Option::None),
    }
}

/// Relies on String::push: appends the given character to the end of the
/// string.
#[verifier::external_body]
fn push_char(s: &mut String, c: char)
    ensures
        final(s)@ == old(s)@.push(c),
{
    s.push(c)
}

/// Resolves one raw key entry `(id, tag, count, offset)` against the optional
/// auxiliary buffers, exactly as [`resolve_value`] states.
pub fn resolve_key_value(
    id: u16,
    tag: u16,
    count: u16,
    offset: u16,
    doubles: &Option<Vec<u8>>,
    ascii: &Option<Vec<u8>>,
) -> (r: CrsResult<GeoTiffData>)
    ensures
        match r {
            Result::Ok(v) => resolve_value(id, tag, count, offset, buf_view(*doubles), buf_view(*ascii))
                == Result::<GeoTiffDataV, CrsErrorV>::Ok(v@),
            Result::Err(e) => resolve_value(id, tag, count, offset, buf_view(*doubles), buf_view(*ascii))
                == Result::<GeoTiffDataV, CrsErrorV>::Err(e@),
        },
{
    if tag == 0 {
        Ok(GeoTiffData::Numeric(offset))
    } else if tag == 34736 {
        match doubles {
            None => Err(CrsError::UnreadableGeotiffCrs),
            Some(d) => {
                let start: usize = offset as usize * 8;
                let cnt: usize = count as usize;
                if count > 0 && start + cnt * 8 > d.len() {
                    Err(CrsError::Io)
                } else {
                    let mut vals: Vec<u64> = Vec::new();
                    let mut j: usize = 0;
                    while j < cnt
                        invariant
                            cnt == count,
                            start == offset * 8,
                            cnt > 0 ==> start + cnt * 8 <= d@.len(),
                            j <= cnt,
                            vals@ == Seq::new(j as nat, |k: int| u64_le(d@, start + 8 * k)),
                        decreases cnt - j,
                    {
                        let v = read_u64_le(d, start + j * 8);
                        vals.push(v);
                        j = j + 1;
                        proof {
                            assert(vals@ =~= Seq::new(j as nat, |k: int| u64_le(d@, start + 8 * k)));
                        }
                    }
                    Ok(GeoTiffData::Doubles(vals))
                }
            },
        }
    } else if tag == 34737 {
        match ascii {
            None => Err(CrsError::UnreadableGeotiffCrs),
            Some(a) => {
                let start: usize = offset as usize;
                let cnt: usize = count as usize;
                if count > 0 && start + cnt > a.len() {
                    Err(CrsError::Io)
                } else {
                    let mut text = String::new();
                    let mut j: usize = 0;
                    while j < cnt
                        invariant
                            cnt == count,
                            start == offset,
                            cnt > 0 ==> start + cnt <= a@.len(),
                            j <= cnt,
                            text@ == Seq::new(j as nat, |k: int| a@[start + k] as char),
                        decreases cnt - j,
                    {
                        let byte = a[start + j];
                        push_char(&mut text, byte as char);
                        j = j + 1;
                        proof {
                            assert(text@ =~= Seq::new(j as nat, |k: int| a@[start + k] as char));
                        }
                    }
                    Ok(GeoTiffData::Text(text))
                }
            },
        }
    } else {
        Err(CrsError::UndefinedDataForGeoTiffKey(id))
    }
}

impl GeoTiffKeyEntry {
    /// Reads the directory entry in slot `index` of `main` and resolves its
    /// value, exactly as [`read_entry`] states.
    pub fn read_from(
        main: &Vec<u8>,
        index: u16,
        doubles: &Option<Vec<u8>>,
        ascii: &Option<Vec<u8>>,
    ) -> (r: CrsResult<GeoTiffKeyEntry>)
        ensures
            match r {
                Result::Ok(e) => read_entry(main@, buf_view(*doubles), buf_view(*ascii), index as nat)
                    == Result::<GeoTiffKeyEntryV, CrsErrorV>::Ok(e@),
                Result::Err(er) => read_entry(main@, buf_view(*doubles), buf_view(*ascii), index as nat)
                    == Result::<GeoTiffKeyEntryV, CrsErrorV>::Err(er@),
            },
    {
        let pos: usize = 8 + index as usize * 8;
        if pos + 8 > main.len() {
            return Err(CrsError::Io);
        }
        let id = read_u16_le(main, pos);
        let tag = read_u16_le(main, pos + 2);
        let cnt = read_u16_le(main, pos + 4);
        let off = read_u16_le(main, pos + 6);
        match resolve_key_value(id, tag, cnt, off, doubles, ascii) {
            Ok(data) => Ok(GeoTiffKeyEntry { id, data }),
            Err(e) => Err(e),
        }
    }
}

impl GeoTiffCRS {
    /// Reads `count` entries from the directory `main`, exactly as
    /// [`decode_entries`] states.
    pub fn read_from(
        main: &Vec<u8>,
        doubles: &Option<Vec<u8>>,
        ascii: &Option<Vec<u8>>,
        count: u16,
    ) -> (r: CrsResult<GeoTiffCRS>)
        ensures
            match r {
                Result::Ok(crs) => decode_entries(main@, buf_view(*doubles), buf_view(*ascii), 0, count as nat)
                    == Result::<Seq<GeoTiffKeyEntryV>, CrsErrorV>::Ok(crs@),
                Result::Err(e) => decode_entries(main@, buf_view(*doubles), buf_view(*ascii), 0, count as nat)
                    == Result::<Seq<GeoTiffKeyEntryV>, CrsErrorV>::Err(e@),
            },
    {
        let mut entries: Vec<GeoTiffKeyEntry> = Vec::new();
        proof {
            match decode_entries(main@, buf_view(*doubles), buf_view(*ascii), 0, count as nat) {
                Result::Ok(rest) => {
                    assert(entries_view(entries) + rest =~= rest);
                },
                Result::Err(_) => {
                },
            }
        }
        let mut i: u16 = 0;
        while i < count
            invariant
                i <= count,
                decode_entries(main@, buf_view(*doubles), buf_view(*ascii), 0, count as nat) == (
                match decode_entries(main@, buf_view(*doubles), buf_view(*ascii), i as nat, count as nat) {
                    Result::Ok(rest) => Result::<Seq<GeoTiffKeyEntryV>, CrsErrorV>::Ok(
                        entries_view(entries) + rest,
                    ),
                    Result::Err(e) => Result::<Seq<GeoTiffKeyEntryV>, CrsErrorV>::Err(e),
                }),
            decreases count - i,
        {
            let ghost prev = entries_view(entries);
            match GeoTiffKeyEntry::read_from(main, i, doubles, ascii) {
                Ok(e) => {
                    let ghost ev = e@;
                    entries.push(e);
                    proof {
                        assert(entries_view(entries) =~= prev.push(ev));
                        match decode_entries(
                            main@,
                            buf_view(*doubles),
                            buf_view(*ascii),
                            i as nat + 1,
                            count as nat,
                        ) {
                            Result::Ok(rest) => {
                                assert(prev + (seq![ev] + rest) =~= prev.push(ev) + rest);
                            },
                            Result::Err(_) => {
                            },
                        }
                    }
                },
                Err(e) => {
                    return Err(e);
                },
            }
            i = i + 1;
        }
        proof {
            match decode_entries(main@, buf_view(*doubles), buf_view(*ascii), count as nat, count as nat) {
                Result::Ok(rest) => {
                    assert(entries_view(entries) + rest =~= entries_view(entries));
                },
                Result::Err(_) => {
                },
            }
        }
        Ok(GeoTiffCRS { entries })
    }
}

/// Gets the EPSG codes carried by the GeoTIFF directory payload together with
/// its optional double and ASCII auxiliary payloads: the horizontal code and
/// the optional vertical code, exactly as [`geotiff_epsg`] states.
pub fn get_geotiff_epsg(
    directory: &Vec<u8>,
    doubles: &Option<Vec<u8>>,
    ascii: &Option<Vec<u8>>,
) -> (r: CrsResult<EPSG>)
    ensures
        match r {
            Result::Ok(v) => geotiff_epsg(directory@, buf_view(*doubles), buf_view(*ascii))
                == Result::<EPSG, CrsErrorV>::Ok(v),
            Result::Err(e) => geotiff_epsg(directory@, buf_view(*doubles), buf_view(*ascii))
                == Result::<EPSG, CrsErrorV>::Err(e@),
        },
{
    if directory.len() < 8 {
        return Err(CrsError::Io);
    }
    let num_keys = read_u16_le(directory, 6);
    let crs = match GeoTiffCRS::read_from(directory, doubles, ascii, num_keys) {
        Ok(c) => c,
        Err(e) => {
            return Err(e);
        },
    };
    let mut hor: Option<u16> = None;
    let mut vert: Option<u16> = None;
    let mut i: usize = 0;
    while i < crs.entries.len()
        invariant
            i <= crs@.len(),
            crs@.len() == crs.entries@.len(),
            directory@.len() >= 8,
            geotiff_decode(directory@, buf_view(*doubles), buf_view(*ascii)) == Result::<
                Seq<GeoTiffKeyEntryV>,
                CrsErrorV,
            >::Ok(crs@),
            interpret_entries(crs@, 0, Option::None, Option::None) == interpret_entries(
                crs@,
                i as nat,
                hor,
                vert,
            ),
        decreases crs@.len() - i,
    {
        let e = &crs.entries[i];
        if e.id == 1024 {
            match &e.data {
                GeoTiffData::Numeric(v) => {
                    if *v == 0 {
                        return Err(CrsError::UnreadableGeotiffCrs);
                    } else if *v == 1 || *v == 2 || *v == 3 {
                        // projected, geographic, or geographic plus vertical
                    } else if *v == 32767 {
                        return Err(CrsError::UserDefinedCrs);
                    } else {
                        return Err(
                            CrsError::UnimplementedForGeoTiffAsciiAndStringData(e.data.dup()),
                        );
                    }
                },
                _ => {
                    return Err(CrsError::UnimplementedForGeoTiffAsciiAndStringData(e.data.dup()));
                },
            }
        } else if e.id == 3072 {
            match &e.data {
                GeoTiffData::Numeric(v) => {
                    hor = Some(*v);
                },
                _ => {
                    return Err(CrsError::UndefinedDataForGeoTiffKey(3072));
                },
            }
        } else if e.id == 2048 {
            match &e.data {
                GeoTiffData::Numeric(v) => {
                    hor = Some(*v);
                },
                _ => {
                    return Err(CrsError::UndefinedDataForGeoTiffKey(2048));
                },
            }
        } else if e.id == 4096 {
            match &e.data {
                GeoTiffData::Numeric(v) => {
                    vert = Some(*v);
                },
                _ => {
                    return Err(CrsError::UndefinedDataForGeoTiffKey(4096));
                },
            }
        }
        i = i + 1;
    }
    match hor {
        Some(h) => Ok((h, vert)),
        None => Err(CrsError::UnreadableGeotiffCrs),
    }
}

/// A directory slot that does not fit in the payload decodes to the I/O-class
/// error at that slot.
proof fn lemma_decode_truncated(
    d: Seq<u8>,
    dbl: Option<Seq<u8>>,
    asc: Option<Seq<u8>>,
    i: nat,
    count: nat,
)
    requires
        i < count,
        d.len() < 8 + count * 8,
        forall|j: nat| j < count && 8 + j * 8 + 8 <= d.len() ==> read_entry(d, dbl, asc, j) is Ok,
    ensures
        decode_entries(d, dbl, asc, i, count) == Result::<Seq<GeoTiffKeyEntryV>, CrsErrorV>::Err(
            CrsErrorV::Io,
        ),
    decreases count - i,
{
    if 8 + i * 8 + 8 <= d.len() {
        assert(read_entry(d, dbl, asc, i) is Ok);
        lemma_decode_truncated(d, dbl, asc, i + 1, count);
    }
}

/// Law: a directory truncated below its declared length surfaces as the
/// I/O-class error, never as a silent zero-fill. The hypothesis that the
/// entries which do fit decode cleanly is needed because an ill-formed
/// earlier entry surfaces its own failure first.
pub proof fn lemma_truncated_directory_io(d: Seq<u8>, dbl: Option<Seq<u8>>, asc: Option<Seq<u8>>)
    requires
        d.len() < 8 || (u16_le(d, 6) > 0 && d.len() < 8 + u16_le(d, 6) * 8 && (forall|j: nat|
            j < u16_le(d, 6) && 8 + j * 8 + 8 <= d.len() ==> read_entry(d, dbl, asc, j) is Ok)),
    ensures
        geotiff_epsg(d, dbl, asc) == Result::<EPSG, CrsErrorV>::Err(CrsErrorV::Io),
{
    if d.len() >= 8 {
        lemma_decode_truncated(d, dbl, asc, 0, u16_le(d, 6) as nat);
    }
}

/// Law: an auxiliary buffer shorter than an entry's declared reach surfaces
/// as the I/O-class error, never as a silent zero-fill.
pub proof fn lemma_truncated_aux_io(
    id: u16,
    tag: u16,
    count: u16,
    offset: u16,
    dbl: Option<Seq<u8>>,
    asc: Option<Seq<u8>>,
)
    requires
        count > 0,
        tag == 34736 || tag == 34737,
        tag == 34736 ==> dbl is Some && offset * 8 + count * 8 > dbl.unwrap().len(),
        tag == 34737 ==> asc is Some && offset + count > asc.unwrap().len(),
    ensures
        resolve_value(id, tag, count, offset, dbl, asc) == Result::<GeoTiffDataV, CrsErrorV>::Err(
            CrsErrorV::Io,
        ),
{
}

} // verus!
