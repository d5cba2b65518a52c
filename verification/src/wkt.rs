//! Text on its way to the engine.

use vstd::prelude::*;
use vstd::string::StringSliceAdditionalSpecFns;
use crate::error::Error;

verus! {

/// Whether the byte `0` occurs in a row of bytes.
pub open spec fn has_nul(bytes: Seq<u8>) -> bool {
    exists|i: int| 0 <= i < bytes.len() && bytes[i] == 0
}

/// Makes the text that the engine's reader is given: the bytes of `wkt` and
/// a closing `0`.
///
/// The engine reads up to the first `0`. A text that holds one inside cannot
/// be passed whole, so it is refused as `InvalidGeometry` here, before the
/// engine is asked.
pub fn c_text(wkt: &str) -> (r: Result<Vec<u8>, Error>)
    ensures
        r is Ok <==> !has_nul(wkt.spec_bytes()),
        r matches Ok(text) ==> text@ == wkt.spec_bytes().push(0u8),
        r matches Err(e) ==> e is InvalidGeometry,
{
    let bytes = wkt.as_bytes();
    let n: usize = bytes.len();
    let mut text: Vec<u8> = Vec::new();
    let mut i: usize = 0;
    while i < n
        invariant
            n == bytes@.len(),
            bytes@ == wkt.spec_bytes(),
            i <= n,
            text@ == bytes@.take(i as int),
            forall|j: int| 0 <= j < i ==> bytes@[j] != 0,
        decreases n - i,
    {
        let b: u8 = bytes[i];
        if b == 0 {
            assert(bytes@[i as int] == 0);
            return Err(Error::InvalidGeometry);
        }
        text.push(b);
        assert(bytes@.take(i + 1) =~= bytes@.take(i as int).push(b));
        i += 1;
    }
    assert(bytes@.take(n as int) =~= bytes@);
    text.push(0);
    Ok(text)
}

/// The rounding precision of `precision` as the engine's writer takes it: a
/// signed number of 32 bits with the same bits.
pub open spec fn writer_precision(precision: u32) -> i32 {
    if precision <= i32::MAX {
        precision as i32
    } else {
        (precision - 0x1_0000_0000) as i32
    }
}

/// What to set the rounding precision of the engine's text writer to, for a
/// precision that the caller may have given: `None` leaves the writer at the
/// engine's default.
pub fn rounding_precision(precision: Option<u32>) -> (r: Option<i32>)
    ensures
        r == match precision {
            Some(p) => Some(writer_precision(p)),
            None => None,
        },
{
    match precision {
        Some(p) => {
            if p <= 0x7fff_ffff {
                Some(p as i32)
            } else {
                let low: u32 = p - 0x8000_0000;
                Some(low as i32 - 0x4000_0000 - 0x4000_0000)
            }
        },
        None => None,
    }
}

} // verus!
