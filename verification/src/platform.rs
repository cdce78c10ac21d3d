//! Platform enumeration and the immutable platform snapshot.

use vstd::prelude::*;
use crate::native::NativeCl;
use crate::query::{decode_text, size_probe, SizeProbe};
use crate::result::Error;
use crate::text::{lemma_split_spaces_from_len, spec_split_spaces, split_spaces};
use crate::types::{
    spec_parse_profile,
    spec_parse_version,
    PlatformId,
    PlatformInfo,
    Profile,
    Version,
};

verus! {

/// The decision that the platform count probe's outcome dictates: the
/// count to fetch, or nothing.
pub open spec fn spec_list_probe(status: i32, count: u32) -> Option<u32> {
    if status == 0 && count > 0 {
        Some(count)
    } else {
        None
    }
}

/// Decides what the platform count probe's outcome demands: only a
/// positive count reported with success asks for the fill call. A zero
/// count, or a failure, which the native layer reports only for invalid
/// arguments that the enumeration never passes, yields the empty listing
/// with no second call: unlike device enumeration, this listing has no
/// error channel and no "not found" exception.
pub fn list_probe(status: i32, count: u32) -> (r: Option<u32>)
    ensures
        r == spec_list_probe(status, count),
{
    if status == 0 && count > 0 {
        Some(count)
    } else {
        None
    }
}

/// The listing that the fill reply yields: exactly the handles filled,
/// when the call succeeded and kept the probed count, and the empty
/// listing on any shortfall, this enumeration having no error channel.
pub open spec fn spec_keep_ids(fill_status: i32, ids: Seq<PlatformId>, count: u32) -> Seq<
    PlatformId,
> {
    if fill_status == 0 && ids.len() == count as int {
        ids
    } else {
        Seq::empty()
    }
}

/// Keeps a fill reply only when its call succeeded and it holds exactly
/// the probed count of handles; anything else, a protocol violation that
/// the native layer's own contract rules out, becomes the empty listing.
pub fn keep_ids(fill_status: i32, ids: Vec<PlatformId>, count: u32) -> (r: Vec<PlatformId>)
    ensures
        r@ == spec_keep_ids(fill_status, ids@, count),
{
    if fill_status == 0 && ids.len() == count as usize {
        ids
    } else {
        Vec::new()
    }
}

/// Get all available platform IDs, by the two-phase protocol: probe the
/// count, then fetch exactly that many handles.
///
/// # Remarks
///
/// While the underlying calls may fail when invalid parameters are
/// supplied, this function passes none, so in practice they always
/// succeed; a failure of either call yields the empty sequence. Each
/// reply's handling is contracted: the probe's at [`list_probe`], the
/// fill's at [`keep_ids`].
pub fn cl_get_platform_ids<R: NativeCl>(rt: &mut R) -> (r: Vec<PlatformId>) {
    let (status, count) = rt.platform_count();
    match list_probe(status, count) {
        None => Vec::new(),
        Some(n) => {
            let (fill_status, ids) = rt.platform_list(n);
            keep_ids(fill_status, ids, n)
        },
    }
}

/// The default pick over an enumerated listing: its first handle, or
/// `Error::NoPlatform` exactly when the listing is empty.
pub fn first_id(ids: &Vec<PlatformId>) -> (r: Result<PlatformId, Error>)
    ensures
        ids@.len() == 0 ==> r == Err::<PlatformId, Error>(Error::NoPlatform),
        ids@.len() > 0 ==> r == Ok::<PlatformId, Error>(ids@[0]),
{
    if ids.len() == 0 {
        Err(Error::NoPlatform)
    } else {
        Ok(ids[0])
    }
}

/// Get a platform info for the given platform, by the two-phase
/// protocol: probe the byte length, then fetch exactly that many bytes
/// and decode them as NUL-terminated UTF-8 text. A zero-length probe
/// yields the empty string without a second native call.
///
/// # Errors
///
/// A failing probe or fetch surfaces its status through the error
/// taxonomy (an invalid platform ID is `Error::InvalidPlatform`); bytes
/// without room for the trailing NUL, or with malformed UTF-8, are
/// `Error::InvalidEncoding`. The error is never `Error::Success`.
pub fn cl_get_platform_info<R: NativeCl>(
    rt: &mut R,
    platform: PlatformId,
    name: PlatformInfo,
) -> (r: Result<String, Error>)
    ensures
        r matches Err(e) ==> e != Error::Success,
{
    let (status, len) = rt.platform_info_len(platform, name);
    match size_probe(status, len) {
        SizeProbe::Fail(e) => Err(e),
        SizeProbe::Empty => Ok(String::new()),
        SizeProbe::Fetch(want) => {
            let (fill_status, bytes) = rt.platform_info_bytes(platform, name, want);
            if fill_status != 0 {
                return Err(Error::from(fill_status));
            }
            decode_text(bytes)
        },
    }
}

/// The mathematical value of a platform snapshot.
#[verifier::ext_equal]
pub struct PlatformView {
    /// The platform's opaque handle.
    pub id: PlatformId,
    /// The parsed profile.
    pub profile: Profile,
    /// The characters of the version string.
    pub version: Seq<char>,
    /// The characters of the platform name.
    pub name: Seq<char>,
    /// The characters of the vendor name.
    pub vendor: Seq<char>,
    /// The extension names, one token per single space of the reported
    /// extensions string.
    pub extensions: Seq<Seq<char>>,
}

/// Structure containing information about an OpenCL platform: an
/// immutable aggregate built once from five info queries and never
/// mutated afterwards.
#[derive(Clone, Debug)]
pub struct Platform {
    id: PlatformId,
    profile: Profile,
    version: String,
    name: String,
    vendor: String,
    extensions: Vec<String>,
}

impl View for Platform {
    type V = PlatformView;

    closed spec fn view(&self) -> PlatformView {
        PlatformView {
            id: self.id,
            profile: self.profile,
            version: self.version@,
            name: self.name@,
            vendor: self.vendor@,
            extensions: self.extensions.deep_view(),
        }
    }
}

impl Platform {
    /// Builds the snapshot of platform `id` from its five fetched
    /// attribute strings: the profile and version strings must parse into
    /// their structured forms, else the whole snapshot fails with
    /// `Error::InvalidValue`; the version, name and vendor strings are
    /// stored verbatim, and the extensions string splits on every single
    /// space into its ordered token sequence.
    pub fn assemble(
        id: PlatformId,
        profile_text: String,
        version: String,
        name: String,
        vendor: String,
        extensions_text: String,
    ) -> (r: Result<Platform, Error>)
        ensures
            spec_parse_profile(profile_text@) is None ==> r == Err::<Platform, Error>(
                Error::InvalidValue,
            ),
            spec_parse_profile(profile_text@) is Some && spec_parse_version(version@) is None
                ==> r == Err::<Platform, Error>(Error::InvalidValue),
            spec_parse_profile(profile_text@) is Some && spec_parse_version(version@) is Some
                ==> (r matches Ok(p) && p@ == (PlatformView {
                id,
                profile: spec_parse_profile(profile_text@)->0,
                version: version@,
                name: name@,
                vendor: vendor@,
                extensions: spec_split_spaces(extensions_text@),
            })),
    {
        let profile = match Profile::try_from(profile_text) {
            Ok(p) => p,
            Err(_) => {
                return Err(Error::InvalidValue);
            },
        };
        match Version::try_from(version.clone()) {
            Ok(_) => {},
            Err(_) => {
                return Err(Error::InvalidValue);
            },
        }
        let extensions = split_spaces(extensions_text.as_str());
        let built = Platform { id, profile, version, name, vendor, extensions };
        proof {
            assert(built@ =~= (PlatformView {
                id,
                profile: spec_parse_profile(profile_text@)->0,
                version: version@,
                name: name@,
                vendor: vendor@,
                extensions: spec_split_spaces(extensions_text@),
            }));
        }
        Ok(built)
    }

    /// Get the platform information for the given platform ID: five info
    /// queries issued in a fixed order (profile, version, name, vendor,
    /// extensions) and combined atomically by [`Platform::assemble`], so a
    /// snapshot never exists with a constituent missing.
    ///
    /// # Errors
    ///
    /// The first failing query fails the whole snapshot with its error
    /// (an invalid platform ID is `Error::InvalidPlatform`), the later
    /// queries never being issued; a profile or version string that does
    /// not parse fails it with `Error::InvalidValue`.
    pub fn get<R: NativeCl>(rt: &mut R, id: PlatformId) -> (r: Result<Platform, Error>)
        ensures
            r matches Ok(p) ==> p@.id == id && spec_parse_version(p@.version) is Some
                && p@.extensions.len() >= 1,
            r matches Err(e) ==> e != Error::Success,
    {
        let profile_text = match cl_get_platform_info(rt, id, PlatformInfo::Profile) {
            Ok(s) => s,
            Err(e) => {
                return Err(e);
            },
        };
        let version = match cl_get_platform_info(rt, id, PlatformInfo::Version) {
            Ok(s) => s,
            Err(e) => {
                return Err(e);
            },
        };
        let name = match cl_get_platform_info(rt, id, PlatformInfo::Name) {
            Ok(s) => s,
            Err(e) => {
                return Err(e);
            },
        };
        let vendor = match cl_get_platform_info(rt, id, PlatformInfo::Vendor) {
            Ok(s) => s,
            Err(e) => {
                return Err(e);
            },
        };
        let extensions_text = match cl_get_platform_info(rt, id, PlatformInfo::Extensions) {
            Ok(s) => s,
            Err(e) => {
                return Err(e);
            },
        };
        proof {
            lemma_split_spaces_from_len(extensions_text@, 0);
        }
        Platform::assemble(id, profile_text, version, name, vendor, extensions_text)
    }

    /// The snapshot of each listed platform, leniently: a platform whose
    /// snapshot fails to build is silently dropped, never replaced, so
    /// the listing holds at most one entry per listed handle and each
    /// entry's handle is one of those listed.
    pub fn get_each<R: NativeCl>(rt: &mut R, ids: &Vec<PlatformId>) -> (r: Vec<Platform>)
        ensures
            r@.len() <= ids@.len(),
            forall|k: int|
                0 <= k < r@.len() ==> spec_parse_version(#[trigger] r@[k]@.version) is Some,
            forall|k: int|
                0 <= k < r@.len() ==> ids@.contains(#[trigger] r@[k]@.id),
    {
        let mut out: Vec<Platform> = Vec::new();
        let mut i: usize = 0;
        while i < ids.len()
            invariant
                i <= ids@.len(),
                out@.len() <= i,
                forall|k: int|
                    0 <= k < out@.len() ==> spec_parse_version(
                        #[trigger] out@[k]@.version,
                    ) is Some,
                forall|k: int|
                    0 <= k < out@.len() ==> ids@.contains(#[trigger] out@[k]@.id),
            decreases ids@.len() - i,
        {
            match Platform::get(rt, ids[i]) {
                Ok(p) => {
                    proof {
                        assert(ids@.contains(ids@[i as int]));
                    }
                    out.push(p);
                },
                Err(_) => {},
            }
            i = i + 1;
        }
        out
    }

    /// Get all available platforms, leniently: any platform whose
    /// snapshot fails to build is silently dropped from the listing.
    pub fn get_all<R: NativeCl>(rt: &mut R) -> (r: Vec<Platform>)
        ensures
            forall|k: int|
                0 <= k < r@.len() ==> spec_parse_version(#[trigger] r@[k]@.version) is Some,
    {
        let ids = cl_get_platform_ids(rt);
        Platform::get_each(rt, &ids)
    }

    /// The snapshot of the first enumerated platform. When no platform is
    /// available this is `Error::NoPlatform`, an explicit error rather
    /// than a crash.
    pub fn get_default<R: NativeCl>(rt: &mut R) -> (r: Result<Platform, Error>)
        ensures
            r matches Ok(p) ==> spec_parse_version(p@.version) is Some,
            r matches Err(e) ==> e != Error::Success,
    {
        let ids = cl_get_platform_ids(rt);
        match first_id(&ids) {
            Err(e) => Err(e),
            Ok(id) => Platform::get(rt, id),
        }
    }

    /// The ID of the platform.
    pub fn id(&self) -> (r: PlatformId)
        ensures
            r == self@.id,
    {
        self.id
    }

    /// The profile of the platform.
    pub fn profile(&self) -> (r: Profile)
        ensures
            r == self@.profile,
    {
        self.profile
    }

    /// The OpenCL version of the platform.
    pub fn version(&self) -> (r: &str)
        ensures
            r@ == self@.version,
    {
        self.version.as_str()
    }

    /// The name of the platform.
    pub fn name(&self) -> (r: &str)
        ensures
            r@ == self@.name,
    {
        self.name.as_str()
    }

    /// The vendor of the platform.
    pub fn vendor(&self) -> (r: &str)
        ensures
            r@ == self@.vendor,
    {
        self.vendor.as_str()
    }

    /// The available extensions on the platform, in reported order.
    pub fn extensions(&self) -> (r: &Vec<String>)
        ensures
            r.deep_view() == self@.extensions,
    {
        &self.extensions
    }
}

} // verus!
