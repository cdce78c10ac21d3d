//! The native query primitive's decision logic: what each half of the
//! two-phase size-probe-then-fetch protocol demands, and the typed
//! extraction of raw query bytes into scalars and strings.

use vstd::prelude::*;
use crate::result::{spec_error_of_code, Error};

verus! {

use vstd::utf8::{decode_utf8, valid_utf8};

/// What the first, size-probing call of the two-phase protocol decided.
#[derive(Eq, PartialEq, Copy, Clone, Debug, Structural)]
pub enum SizeProbe {
    /// The probe failed: the query fails with the mapped error kind.
    Fail(Error),
    /// The probe succeeded with size zero: the result is empty and the
    /// second native call is never made.
    Empty,
    /// The probe succeeded: fetch exactly this many bytes.
    Fetch(usize),
}

/// The decision that a size probe's outcome dictates.
pub open spec fn spec_size_probe(status: i32, len: usize) -> SizeProbe {
    if status != 0 {
        SizeProbe::Fail(spec_error_of_code(status))
    } else if len == 0 {
        SizeProbe::Empty
    } else {
        SizeProbe::Fetch(len)
    }
}

/// Decides what a size probe's outcome demands: a non-success status
/// fails with the mapped error kind, a zero size is an empty result with
/// no second call, and anything else asks to fetch the reported size.
pub fn size_probe(status: i32, len: usize) -> (r: SizeProbe)
    ensures
        r == spec_size_probe(status, len),
{
    if status != 0 {
        SizeProbe::Fail(Error::from(status))
    } else if len == 0 {
        SizeProbe::Empty
    } else {
        SizeProbe::Fetch(len)
    }
}

/// What a device-enumeration count probe decided. Unlike every other
/// probe, a "not found" status is success with zero results, not an
/// error: devices of an uncommon type are a valid outcome.
#[derive(Eq, PartialEq, Copy, Clone, Debug, Structural)]
pub enum CountProbe {
    /// The probe failed: the enumeration fails with the mapped error
    /// kind, which is never `DeviceNotFound`.
    Fail(Error),
    /// The enumeration succeeds with zero results and no second native
    /// call: the native layer reported "not found", or a zero count.
    Empty,
    /// The probe succeeded: fetch this many entries. Always positive.
    Count(u32),
}

/// The decision that a count probe's outcome dictates.
pub open spec fn spec_count_probe(status: i32, count: u32) -> CountProbe {
    if spec_error_of_code(status) == Error::DeviceNotFound {
        CountProbe::Empty
    } else if status != 0 {
        CountProbe::Fail(spec_error_of_code(status))
    } else if count == 0 {
        CountProbe::Empty
    } else {
        CountProbe::Count(count)
    }
}

/// Decides what a device count probe's outcome demands: "not found"
/// collapses to success with zero results, any other failure surfaces its
/// mapped error kind, and a success hands back its reported count, a zero
/// count asking for no second call.
pub fn count_probe(status: i32, count: u32) -> (r: CountProbe)
    ensures
        r == spec_count_probe(status, count),
{
    match Error::from(status) {
        Error::DeviceNotFound => CountProbe::Empty,
        Error::Success => {
            if count == 0 {
                CountProbe::Empty
            } else {
                CountProbe::Count(count)
            }
        },
        e => CountProbe::Fail(e),
    }
}

/// The decision that a scalar fetch's size probe dictates.
pub open spec fn spec_scalar_probe(status: i32, len: usize, want: usize) -> Result<usize, Error> {
    if status != 0 {
        Err(spec_error_of_code(status))
    } else if len != want {
        Err(Error::InvalidValue)
    } else {
        Ok(len)
    }
}

/// Decides what a scalar fetch's size probe demands: a failing status
/// maps through the error taxonomy; a declared size other than the
/// target scalar's exact byte size fails with `Error::InvalidValue`
/// before any second native call, never silently coerced; only the exact
/// size goes on to fetch.
pub fn scalar_probe(status: i32, len: usize, want: usize) -> (r: Result<usize, Error>)
    ensures
        r == spec_scalar_probe(status, len, want),
{
    if status != 0 {
        Err(Error::from(status))
    } else if len != want {
        Err(Error::InvalidValue)
    } else {
        Ok(len)
    }
}

/// The text denoted by a raw string query result: the protocol guarantees
/// a single trailing NUL byte, which is stripped, and the remainder
/// decodes as UTF-8. Bytes too short to carry the NUL, or with malformed
/// UTF-8, are an encoding error rather than silent truncation.
pub open spec fn spec_decode_text(bytes: Seq<u8>) -> Result<Seq<char>, Error> {
    if bytes.len() == 0 {
        Err(Error::InvalidEncoding)
    } else if valid_utf8(bytes.take(bytes.len() - 1)) {
        Ok(decode_utf8(bytes.take(bytes.len() - 1)))
    } else {
        Err(Error::InvalidEncoding)
    }
}

/// Relies on `String::from_utf8`: it succeeds exactly on valid UTF-8
/// input and decodes the bytes to their character sequence.
#[verifier::external_body]
fn utf8_to_string(bytes: Vec<u8>) -> (r: Option<String>)
    ensures
        r is Some <==> valid_utf8(bytes@),
        r matches Some(s) ==> s@ == decode_utf8(bytes@),
{
    match String::from_utf8(bytes) {
        Ok(s) => Some(s),
        Err(_) => None,
    }
}

/// Decodes a raw string query result: strips the single trailing NUL and
/// decodes the remainder as UTF-8, surfacing `Error::InvalidEncoding`
/// instead of assuming the native text is well formed.
pub fn decode_text(bytes: Vec<u8>) -> (r: Result<String, Error>)
    ensures
        spec_decode_text(bytes@) matches Ok(cs) ==> (r matches Ok(s) && s@ == cs),
        spec_decode_text(bytes@) matches Err(e) ==> r == Err::<String, Error>(e),
{
    let mut content = bytes;
    if content.len() == 0 {
        return Err(Error::InvalidEncoding);
    }
    content.pop();
    match utf8_to_string(content) {
        Some(s) => Ok(s),
        None => Err(Error::InvalidEncoding),
    }
}

/// The value of four little-endian bytes.
pub open spec fn spec_u32_le(b: Seq<u8>) -> int {
    b[0] + 256 * b[1] + 65536 * b[2] + 16777216 * b[3]
}

/// The value of eight little-endian bytes.
pub open spec fn spec_u64_le(b: Seq<u8>) -> int {
    b[0] + 256 * b[1] + 65536 * b[2] + 16777216 * b[3] + 4294967296 * b[4] + 1099511627776 * b[5]
        + 281474976710656 * b[6] + 72057594037927936 * b[7]
}

/// Reinterprets a raw scalar query result as a `u32`. A byte count other
/// than exactly four fails with `Error::InvalidValue`: never silently
/// truncated, padded or zero-filled.
pub fn decode_u32(bytes: &Vec<u8>) -> (r: Result<u32, Error>)
    ensures
        bytes@.len() == 4 ==> (r matches Ok(v) && v == spec_u32_le(bytes@)),
        bytes@.len() != 4 ==> r == Err::<u32, Error>(Error::InvalidValue),
{
    if bytes.len() != 4 {
        return Err(Error::InvalidValue);
    }
    Ok(
        bytes[0] as u32 + 256 * (bytes[1] as u32) + 65536 * (bytes[2] as u32) + 16777216 * (
        bytes[3] as u32),
    )
}

/// Reinterprets a raw scalar query result as a `u64`. A byte count other
/// than exactly eight fails with `Error::InvalidValue`.
pub fn decode_u64(bytes: &Vec<u8>) -> (r: Result<u64, Error>)
    ensures
        bytes@.len() == 8 ==> (r matches Ok(v) && v == spec_u64_le(bytes@)),
        bytes@.len() != 8 ==> r == Err::<u64, Error>(Error::InvalidValue),
{
    if bytes.len() != 8 {
        return Err(Error::InvalidValue);
    }
    Ok(
        bytes[0] as u64 + 256 * (bytes[1] as u64) + 65536 * (bytes[2] as u64) + 16777216 * (
        bytes[3] as u64) + 4294967296 * (bytes[4] as u64) + 1099511627776 * (bytes[5] as u64)
            + 281474976710656 * (bytes[6] as u64) + 72057594037927936 * (bytes[7] as u64),
    )
}

} // verus!
