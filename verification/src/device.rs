//! Device enumeration and typed device info queries.
//!
//! Scalar attributes are fetched at the two widths the native layer
//! uses, 32 and 64 bits, each behind its own size-checked fetcher;
//! selectors whose values are arrays, such as the maximum work-item
//! sizes, have no typed fetcher here.

use vstd::prelude::*;
use crate::native::NativeCl;
use crate::query::{count_probe, decode_text, decode_u32, decode_u64, scalar_probe, size_probe,
    CountProbe, SizeProbe};
use crate::result::spec_error_of_code;
use crate::result::Error;
use crate::types::{DeviceId, DeviceInfo, DeviceType, PlatformId};

verus! {

/// The device listing that the fill reply yields, or its error.
pub open spec fn spec_keep_device_ids(fill_status: i32, ids: Seq<DeviceId>, count: u32) -> Result<
    Seq<DeviceId>,
    Error,
> {
    if fill_status != 0 {
        Err(spec_error_of_code(fill_status))
    } else if ids.len() != count as int {
        Err(Error::Unknown)
    } else {
        Ok(ids)
    }
}

/// Keeps a fill reply only when its call succeeded and it holds exactly
/// the probed count of handles. A failing status maps through the error
/// taxonomy and is surfaced, never retried; a reply that breaks the
/// protocol's count promise, which the native layer's own contract rules
/// out, is `Error::Unknown`.
pub fn keep_device_ids(fill_status: i32, ids: Vec<DeviceId>, count: u32) -> (r: Result<
    Vec<DeviceId>,
    Error,
>)
    ensures
        spec_keep_device_ids(fill_status, ids@, count) matches Ok(kept) ==> (r matches Ok(v)
            && v@ == kept),
        spec_keep_device_ids(fill_status, ids@, count) matches Err(e) ==> r == Err::<
            Vec<DeviceId>,
            Error,
        >(e),
{
    if fill_status != 0 {
        return Err(Error::from(fill_status));
    }
    if ids.len() != count as usize {
        return Err(Error::Unknown);
    }
    Ok(ids)
}

/// Get all available device IDs with the given device type on the given
/// platform, by the two-phase protocol: probe the count, then fetch
/// exactly that many handles. A "not found" report from the probe is a
/// valid outcome, not an error: it yields the empty sequence, as
/// [`count_probe`] states; so does a zero count, either without a second
/// call.
///
/// # Errors
///
/// Any other failing status surfaces through the error taxonomy, such as
/// `Error::InvalidPlatform` for an invalid platform ID or
/// `Error::InvalidValue` for an invalid type filter; [`keep_device_ids`]
/// states how the fill reply becomes the listing. The error is never
/// `Error::Success`.
pub fn cl_get_device_ids<R: NativeCl>(
    rt: &mut R,
    platform: PlatformId,
    device_type: DeviceType,
) -> (r: Result<Vec<DeviceId>, Error>)
    ensures
        r matches Err(e) ==> e != Error::Success,
{
    let (status, count) = rt.device_count(platform, device_type.raw());
    match count_probe(status, count) {
        CountProbe::Empty => Ok(Vec::new()),
        CountProbe::Fail(e) => Err(e),
        CountProbe::Count(n) => {
            let (fill_status, ids) = rt.device_list(platform, device_type.raw(), n);
            keep_device_ids(fill_status, ids, n)
        },
    }
}

/// Get a device info whose value is a 32-bit scalar, by the two-phase
/// protocol. A declared size other than exactly four bytes fails with
/// `Error::InvalidValue` before any second native call, as [`scalar_probe`]
/// states: a size mismatch is never silently coerced, truncated or
/// zero-filled.
///
/// The caller must pick a selector whose value domain really is a 32-bit
/// scalar; only the size is checked, not the meaning.
pub fn cl_get_device_info_u32<R: NativeCl>(rt: &mut R, device: DeviceId, name: DeviceInfo) -> (r:
    Result<u32, Error>)
    ensures
        r matches Err(e) ==> e != Error::Success,
{
    let (status, len) = rt.device_info_len(device, name);
    let want = match scalar_probe(status, len, 4) {
        Err(e) => {
            return Err(e);
        },
        Ok(w) => w,
    };
    let (fill_status, bytes) = rt.device_info_bytes(device, name, want);
    if fill_status != 0 {
        return Err(Error::from(fill_status));
    }
    decode_u32(&bytes)
}

/// Get a device info whose value is a 64-bit scalar, by the two-phase
/// protocol. A declared size other than exactly eight bytes fails with
/// `Error::InvalidValue` before any second native call, as
/// [`scalar_probe`] states.
///
/// The caller must pick a selector whose value domain really is a 64-bit
/// scalar; only the size is checked, not the meaning.
pub fn cl_get_device_info_u64<R: NativeCl>(rt: &mut R, device: DeviceId, name: DeviceInfo) -> (r:
    Result<u64, Error>)
    ensures
        r matches Err(e) ==> e != Error::Success,
{
    let (status, len) = rt.device_info_len(device, name);
    let want = match scalar_probe(status, len, 8) {
        Err(e) => {
            return Err(e);
        },
        Ok(w) => w,
    };
    let (fill_status, bytes) = rt.device_info_bytes(device, name, want);
    if fill_status != 0 {
        return Err(Error::from(fill_status));
    }
    decode_u64(&bytes)
}

/// Get a device info whose value is NUL-terminated text, by the
/// two-phase protocol: probe the byte length, then fetch exactly that
/// many bytes and decode them. A zero-length probe yields the empty
/// string without a second native call.
///
/// # Errors
///
/// A failing probe or fetch surfaces its status through the error
/// taxonomy; bytes without room for the trailing NUL, or with malformed
/// UTF-8, are `Error::InvalidEncoding`. The caller must pick a selector
/// that denotes a textual attribute.
pub fn cl_get_device_info_string<R: NativeCl>(rt: &mut R, device: DeviceId, name: DeviceInfo) -> (
    r: Result<String, Error>)
    ensures
        r matches Err(e) ==> e != Error::Success,
{
    let (status, len) = rt.device_info_len(device, name);
    match size_probe(status, len) {
        SizeProbe::Fail(e) => Err(e),
        SizeProbe::Empty => Ok(String::new()),
        SizeProbe::Fetch(want) => {
            let (fill_status, bytes) = rt.device_info_bytes(device, name, want);
            if fill_status != 0 {
                return Err(Error::from(fill_status));
            }
            decode_text(bytes)
        },
    }
}

} // verus!
