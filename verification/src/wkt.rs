//! Scanning a WKT byte string for its trailing numeric authority code.

use vstd::prelude::*;

use crate::types::CrsError;
use crate::types::CrsErrorV;
use crate::types::CrsResult;
use crate::types::EPSG;

verus! {

/// Whether `b` is the ASCII encoding of a decimal digit.
pub open spec fn is_digit_byte(b: u8) -> bool {
    48 <= b <= 57
}

/// Ten to the `n`th power.
pub open spec fn pow10(n: nat) -> nat
    decreases n,
{
    if n == 0 {
        1
    } else {
        10 * pow10((n - 1) as nat)
    }
}

/// The reverse scan over `bytes`, `i` positions before the end, with `acc`
/// accumulated from `power` digits so far and `started` recording whether a
/// digit has been seen. `Some` carries the accumulated code once the scan
/// stops; `None` means more than eight trailing bytes were inspected before
/// the digit run ended.
pub open spec fn wkt_scan(bytes: Seq<u8>, i: int, acc: nat, power: nat, started: bool) -> Option<
    nat,
>
    decreases bytes.len() - i,
{
    if i < 0 || i >= bytes.len() {
        Option::Some(acc)
    } else {
        let b = bytes[bytes.len() - 1 - i];
        if started && !is_digit_byte(b) {
            Option::Some(acc)
        } else if i > 7 {
            Option::None
        } else if is_digit_byte(b) {
            wkt_scan(bytes, i + 1, acc + (b - 48) as nat * pow10(power), power + 1, true)
        } else {
            wkt_scan(bytes, i + 1, acc, power, started)
        }
    }
}

/// What the WKT path returns on `bytes`: the trailing code reduced to 16 bits
/// and no vertical code, or the bounded-scan failure.
pub open spec fn wkt_epsg(bytes: Seq<u8>) -> Result<EPSG, CrsErrorV> {
    match wkt_scan(bytes, 0, 0, 0, false) {
        Option::Some(code) => Result::Ok(((code % 0x10000) as u16, Option::None)),
        Option::None => Result::Err(CrsErrorV::UnreadableWktCrs),
    }
}

/// Finds the EPSG code located at the end of the WKT string.
///
/// Scans the bytes in reverse; digits accumulate into the code until a
/// non-digit ends the run. Inspecting more than eight trailing bytes before
/// the run ends fails with [`CrsError::UnreadableWktCrs`].
pub fn get_wkt_epsg(bytes: &Vec<u8>) -> (r: CrsResult<EPSG>)
    ensures
        match r {
            Result::Ok(v) => wkt_epsg(bytes@) == Result::<EPSG, CrsErrorV>::Ok(v),
            Result::Err(e) => wkt_epsg(bytes@) == Result::<EPSG, CrsErrorV>::Err(e@),
        },
{
    let n: usize = bytes.len();
    let mut epsg_code: u32 = 0;
    let mut has_code_started: bool = false;
    let mut power: u32 = 0;
    let mut pw: u32 = 1;
    let mut i: usize = 0;
    while i < n
        invariant
            n == bytes@.len(),
            i <= n,
            power <= i,
            power <= 8,
            pw == pow10(power as nat),
            epsg_code < pw,
            wkt_scan(bytes@, 0, 0, 0, false) == wkt_scan(
                bytes@,
                i as int,
                epsg_code as nat,
                power as nat,
                has_code_started,
            ),
        decreases n - i,
    {
        let b = bytes[n - 1 - i];
        let digit = 48 <= b && b <= 57;
        if has_code_started && !digit {
            return Ok(((epsg_code % 0x10000) as u16, None));
        } else if i > 7 {
            return Err(CrsError::UnreadableWktCrs);
        } else if digit {
            proof {
                lemma_pow10_bound(power as nat);
                assert((b - 48) as u32 * pw <= 90_000_000 && epsg_code + (b - 48) as u32 * pw < 10
                    * pw) by (nonlinear_arith)
                    requires
                        48 <= b <= 57,
                        epsg_code < pw,
                        pw <= 10_000_000,
                ;
            }
            has_code_started = true;
            epsg_code = epsg_code + (b - 48) as u32 * pw;
            pw = pw * 10;
            power = power + 1;
        }
        i = i + 1;
    }
    Ok(((epsg_code % 0x10000) as u16, None))
}

/// Ten to a power of at most seven stays within ten to the seventh.
proof fn lemma_pow10_bound(n: nat)
    requires
        n <= 7,
    ensures
        pow10(n) <= 10_000_000,
{
    reveal_with_fuel(pow10, 9);
}

} // verus!
