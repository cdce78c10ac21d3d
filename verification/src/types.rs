//! Primitive types: info selectors, the device type filter, profiles and
//! version records.

use vstd::prelude::*;

verus! {

use vstd::std_specs::ops::{BitAndSpec, BitOrSpec, NotSpec};
use vstd::string::StrSliceExecFns;
use vstd::string::StringExecFns;
use crate::text::{
    append_u8_dec,
    chars_of,
    find_char,
    lemma_next_at,
    lemma_next_at_determined,
    next_at,
    parse_u8_range,
    spec_parse_u8,
    spec_splitn3,
    spec_u8_dec,
};

/// cl_platform_id: an opaque, integer-sized handle owned by the native
/// subsystem. It is only ever compared and passed back into query calls.
pub type PlatformId = usize;

/// cl_device_id: an opaque, integer-sized handle owned by the native
/// subsystem.
pub type DeviceId = usize;

/// cl_platform_info: which descriptive attribute of a platform to query.
///
/// Every platform selector denotes a NUL-terminated string attribute.
#[derive(Eq, PartialEq, Copy, Clone, Debug, Structural)]
pub enum PlatformInfo {
    /// Either `"FULL_PROFILE"` or `"EMBEDDED_PROFILE"`.
    Profile,
    /// OpenCL version string.
    Version,
    /// Platform name string.
    Name,
    /// Platform vendor string.
    Vendor,
    /// Space-separated list of extension names (the extension names
    /// themselves do not contain any spaces) supported by the platform.
    Extensions,
}

/// The raw cl_platform_info code that each selector stands for.
pub open spec fn spec_platform_info_code(info: PlatformInfo) -> u32 {
    match info {
        PlatformInfo::Profile => 0x0900,
        PlatformInfo::Version => 0x0901,
        PlatformInfo::Name => 0x0902,
        PlatformInfo::Vendor => 0x0903,
        PlatformInfo::Extensions => 0x0904,
    }
}

impl PlatformInfo {
    /// The raw cl_platform_info code passed to the native layer.
    pub fn code(&self) -> (r: u32)
        ensures
            r == spec_platform_info_code(*self),
    {
        match *self {
            PlatformInfo::Profile => 0x0900,
            PlatformInfo::Version => 0x0901,
            PlatformInfo::Name => 0x0902,
            PlatformInfo::Vendor => 0x0903,
            PlatformInfo::Extensions => 0x0904,
        }
    }
}

/// cl_device_info: which descriptive attribute of a device to query.
#[derive(Eq, PartialEq, Copy, Clone, Debug, Structural)]
#[allow(missing_docs)]
pub enum DeviceInfo {
    Type,
    VendorId,
    MaxComputeUnits,
    MaxWorkItemDimensions,
    MaxWorkGroupSize,
    MaxWorkItemSizes,
    PreferredVectorWidthChar,
    PreferredVectorWidthShort,
    PreferredVectorWidthInt,
    PreferredVectorWidthLong,
    PreferredVectorWidthFloat,
    PreferredVectorWidthDouble,
    MaxClockFrequency,
    /// The default compute device address space size specified as an unsigned
    /// integer value in bits. Currently supported values are 32 or 64 bits.
    AddressBits,
    MaxReadImageArgs,
    MaxWriteImageArgs,
    MaxMemAllocSize,
    Image2dMaxWidth,
    Image2dMaxHeight,
    Image3dMaxWidth,
    Image3dMaxHeight,
    Image3dMaxDepth,
    ImageSupport,
    MaxParameterSize,
    MaxSamplers,
    MemBaseAddrAlign,
    MinDataTypeAlignSize,
    SingleFpConfig,
    /// Type of global memory cache supported.
    GlobalMemCacheType,
    /// Size of global memory cache line in bytes.
    GlobalMemCachelineSize,
    /// Size of global memory cache in bytes.
    GlobalMemCacheSize,
    /// Size of global device memory in bytes.
    GlobalMemSize,
    MaxConstantBufferSize,
    MaxConstantArgs,
    LocalMemType,
    LocalMemSize,
    /// Whether the device implements error correction for its memories,
    /// caches and registers.
    ErrorCorrectionSupport,
    ProfilingTimerResolution,
    /// Whether the OpenCL device is a little endian device.
    EndianLittle,
    /// Whether the device is available.
    Available,
    /// Whether the implementation has a compiler available to compile
    /// program source.
    CompilerAvailable,
    /// Bit-field describing the execution capabilities of the device.
    ExecutionCapabilities,
    QueueProperties,
    /// Device name string.
    Name,
    Vendor,
    DriverVersion,
    Profile,
    Version,
    /// Space-separated list of extension names supported by the device.
    Extensions,
    /// The platform associated with this device.
    Platform,
    /// Bit-field describing the optional double precision floating-point
    /// capability of the device.
    DoubleFpConfig,
    PreferredVectorWidthHalf,
    HostUnifiedMemory,
    NativeVectorWidthChar,
    NativeVectorWidthShort,
    NativeVectorWidthInt,
    NativeVectorWidthLong,
    NativeVectorWidthFloat,
    NativeVectorWidthDouble,
    NativeVectorWidthHalf,
    OpenclCVERSION,
    LinkerAvailable,
    BuiltInKernels,
    ImageMaxBufferSize,
    ImageMaxArraySize,
    ParentDevice,
    PartitionMaxSubDevices,
    PartitionProperties,
    PartitionAffinityDomain,
    PartitionType,
    ReferenceCount,
    PreferredInteropUserSync,
    PrintfBufferSize,
}

/// The raw cl_device_info code that each selector stands for.
pub open spec fn spec_device_info_code(info: DeviceInfo) -> u32 {
    match info {
        DeviceInfo::Type => 0x1000,
        DeviceInfo::VendorId => 0x1001,
        DeviceInfo::MaxComputeUnits => 0x1002,
        DeviceInfo::MaxWorkItemDimensions => 0x1003,
        DeviceInfo::MaxWorkGroupSize => 0x1004,
        DeviceInfo::MaxWorkItemSizes => 0x1005,
        DeviceInfo::PreferredVectorWidthChar => 0x1006,
        DeviceInfo::PreferredVectorWidthShort => 0x1007,
        DeviceInfo::PreferredVectorWidthInt => 0x1008,
        DeviceInfo::PreferredVectorWidthLong => 0x1009,
        DeviceInfo::PreferredVectorWidthFloat => 0x100A,
        DeviceInfo::PreferredVectorWidthDouble => 0x100B,
        DeviceInfo::MaxClockFrequency => 0x100C,
        DeviceInfo::AddressBits => 0x100D,
        DeviceInfo::MaxReadImageArgs => 0x100E,
        DeviceInfo::MaxWriteImageArgs => 0x100F,
        DeviceInfo::MaxMemAllocSize => 0x1010,
        DeviceInfo::Image2dMaxWidth => 0x1011,
        DeviceInfo::Image2dMaxHeight => 0x1012,
        DeviceInfo::Image3dMaxWidth => 0x1013,
        DeviceInfo::Image3dMaxHeight => 0x1014,
        DeviceInfo::Image3dMaxDepth => 0x1015,
        DeviceInfo::ImageSupport => 0x1016,
        DeviceInfo::MaxParameterSize => 0x1017,
        DeviceInfo::MaxSamplers => 0x1018,
        DeviceInfo::MemBaseAddrAlign => 0x1019,
        DeviceInfo::MinDataTypeAlignSize => 0x101A,
        DeviceInfo::SingleFpConfig => 0x101B,
        DeviceInfo::GlobalMemCacheType => 0x101C,
        DeviceInfo::GlobalMemCachelineSize => 0x101D,
        DeviceInfo::GlobalMemCacheSize => 0x101E,
        DeviceInfo::GlobalMemSize => 0x101F,
        DeviceInfo::MaxConstantBufferSize => 0x1020,
        DeviceInfo::MaxConstantArgs => 0x1021,
        DeviceInfo::LocalMemType => 0x1022,
        DeviceInfo::LocalMemSize => 0x1023,
        DeviceInfo::ErrorCorrectionSupport => 0x1024,
        DeviceInfo::ProfilingTimerResolution => 0x1025,
        DeviceInfo::EndianLittle => 0x1026,
        DeviceInfo::Available => 0x1027,
        DeviceInfo::CompilerAvailable => 0x1028,
        DeviceInfo::ExecutionCapabilities => 0x1029,
        DeviceInfo::QueueProperties => 0x102A,
        DeviceInfo::Name => 0x102B,
        DeviceInfo::Vendor => 0x102C,
        DeviceInfo::DriverVersion => 0x102D,
        DeviceInfo::Profile => 0x102E,
        DeviceInfo::Version => 0x102F,
        DeviceInfo::Extensions => 0x1030,
        DeviceInfo::Platform => 0x1031,
        DeviceInfo::DoubleFpConfig => 0x1032,
        DeviceInfo::PreferredVectorWidthHalf => 0x1034,
        DeviceInfo::HostUnifiedMemory => 0x1035,
        DeviceInfo::NativeVectorWidthChar => 0x1036,
        DeviceInfo::NativeVectorWidthShort => 0x1037,
        DeviceInfo::NativeVectorWidthInt => 0x1038,
        DeviceInfo::NativeVectorWidthLong => 0x1039,
        DeviceInfo::NativeVectorWidthFloat => 0x103A,
        DeviceInfo::NativeVectorWidthDouble => 0x103B,
        DeviceInfo::NativeVectorWidthHalf => 0x103C,
        DeviceInfo::OpenclCVERSION => 0x103D,
        DeviceInfo::LinkerAvailable => 0x103E,
        DeviceInfo::BuiltInKernels => 0x103F,
        DeviceInfo::ImageMaxBufferSize => 0x1040,
        DeviceInfo::ImageMaxArraySize => 0x1041,
        DeviceInfo::ParentDevice => 0x1042,
        DeviceInfo::PartitionMaxSubDevices => 0x1043,
        DeviceInfo::PartitionProperties => 0x1044,
        DeviceInfo::PartitionAffinityDomain => 0x1045,
        DeviceInfo::PartitionType => 0x1046,
        DeviceInfo::ReferenceCount => 0x1047,
        DeviceInfo::PreferredInteropUserSync => 0x1048,
        DeviceInfo::PrintfBufferSize => 0x1049,
    }
}

impl DeviceInfo {
    /// The raw cl_device_info code passed to the native layer.
    pub fn code(&self) -> (r: u32)
        ensures
            r == spec_device_info_code(*self),
    {
        match *self {
            DeviceInfo::Type => 0x1000,
            DeviceInfo::VendorId => 0x1001,
            DeviceInfo::MaxComputeUnits => 0x1002,
            DeviceInfo::MaxWorkItemDimensions => 0x1003,
            DeviceInfo::MaxWorkGroupSize => 0x1004,
            DeviceInfo::MaxWorkItemSizes => 0x1005,
            DeviceInfo::PreferredVectorWidthChar => 0x1006,
            DeviceInfo::PreferredVectorWidthShort => 0x1007,
            DeviceInfo::PreferredVectorWidthInt => 0x1008,
            DeviceInfo::PreferredVectorWidthLong => 0x1009,
            DeviceInfo::PreferredVectorWidthFloat => 0x100A,
            DeviceInfo::PreferredVectorWidthDouble => 0x100B,
            DeviceInfo::MaxClockFrequency => 0x100C,
            DeviceInfo::AddressBits => 0x100D,
            DeviceInfo::MaxReadImageArgs => 0x100E,
            DeviceInfo::MaxWriteImageArgs => 0x100F,
            DeviceInfo::MaxMemAllocSize => 0x1010,
            DeviceInfo::Image2dMaxWidth => 0x1011,
            DeviceInfo::Image2dMaxHeight => 0x1012,
            DeviceInfo::Image3dMaxWidth => 0x1013,
            DeviceInfo::Image3dMaxHeight => 0x1014,
            DeviceInfo::Image3dMaxDepth => 0x1015,
            DeviceInfo::ImageSupport => 0x1016,
            DeviceInfo::MaxParameterSize => 0x1017,
            DeviceInfo::MaxSamplers => 0x1018,
            DeviceInfo::MemBaseAddrAlign => 0x1019,
            DeviceInfo::MinDataTypeAlignSize => 0x101A,
            DeviceInfo::SingleFpConfig => 0x101B,
            DeviceInfo::GlobalMemCacheType => 0x101C,
            DeviceInfo::GlobalMemCachelineSize => 0x101D,
            DeviceInfo::GlobalMemCacheSize => 0x101E,
            DeviceInfo::GlobalMemSize => 0x101F,
            DeviceInfo::MaxConstantBufferSize => 0x1020,
            DeviceInfo::MaxConstantArgs => 0x1021,
            DeviceInfo::LocalMemType => 0x1022,
            DeviceInfo::LocalMemSize => 0x1023,
            DeviceInfo::ErrorCorrectionSupport => 0x1024,
            DeviceInfo::ProfilingTimerResolution => 0x1025,
            DeviceInfo::EndianLittle => 0x1026,
            DeviceInfo::Available => 0x1027,
            DeviceInfo::CompilerAvailable => 0x1028,
            DeviceInfo::ExecutionCapabilities => 0x1029,
            DeviceInfo::QueueProperties => 0x102A,
            DeviceInfo::Name => 0x102B,
            DeviceInfo::Vendor => 0x102C,
            DeviceInfo::DriverVersion => 0x102D,
            DeviceInfo::Profile => 0x102E,
            DeviceInfo::Version => 0x102F,
            DeviceInfo::Extensions => 0x1030,
            DeviceInfo::Platform => 0x1031,
            DeviceInfo::DoubleFpConfig => 0x1032,
            DeviceInfo::PreferredVectorWidthHalf => 0x1034,
            DeviceInfo::HostUnifiedMemory => 0x1035,
            DeviceInfo::NativeVectorWidthChar => 0x1036,
            DeviceInfo::NativeVectorWidthShort => 0x1037,
            DeviceInfo::NativeVectorWidthInt => 0x1038,
            DeviceInfo::NativeVectorWidthLong => 0x1039,
            DeviceInfo::NativeVectorWidthFloat => 0x103A,
            DeviceInfo::NativeVectorWidthDouble => 0x103B,
            DeviceInfo::NativeVectorWidthHalf => 0x103C,
            DeviceInfo::OpenclCVERSION => 0x103D,
            DeviceInfo::LinkerAvailable => 0x103E,
            DeviceInfo::BuiltInKernels => 0x103F,
            DeviceInfo::ImageMaxBufferSize => 0x1040,
            DeviceInfo::ImageMaxArraySize => 0x1041,
            DeviceInfo::ParentDevice => 0x1042,
            DeviceInfo::PartitionMaxSubDevices => 0x1043,
            DeviceInfo::PartitionProperties => 0x1044,
            DeviceInfo::PartitionAffinityDomain => 0x1045,
            DeviceInfo::PartitionType => 0x1046,
            DeviceInfo::ReferenceCount => 0x1047,
            DeviceInfo::PreferredInteropUserSync => 0x1048,
            DeviceInfo::PrintfBufferSize => 0x1049,
        }
    }
}

/// The sentinel bitmask that covers every device type flag; complement is
/// always masked against it so unused high bits never leak into a filter.
pub const DEVICE_TYPE_ALL_BITS: u64 = 0xFFFFFFFF;

/// Device type to query/filter for, or type of a given device: a bitmask
/// over a small fixed set of flags, combined with `|`, `&` and `!`.
#[derive(Eq, PartialEq, Copy, Clone, Debug, Structural)]
pub struct DeviceType {
    /// The raw cl_device_type bits.
    pub bits: u64,
}

impl DeviceType {
    /// The default device of the given platform.
    pub fn default_device() -> (r: Self)
        ensures
            r.bits == 1u64,
    {
        DeviceType { bits: 1 }
    }

    /// A CPU.
    pub fn cpu() -> (r: Self)
        ensures
            r.bits == 2u64,
    {
        DeviceType { bits: 2 }
    }

    /// A GPGPU.
    pub fn gpu() -> (r: Self)
        ensures
            r.bits == 4u64,
    {
        DeviceType { bits: 4 }
    }

    /// A dedicated compute card.
    pub fn accelerator() -> (r: Self)
        ensures
            r.bits == 8u64,
    {
        DeviceType { bits: 8 }
    }

    /// A custom device.
    pub fn custom() -> (r: Self)
        ensures
            r.bits == 16u64,
    {
        DeviceType { bits: 16 }
    }

    /// All device types.
    pub fn all() -> (r: Self)
        ensures
            r.bits == DEVICE_TYPE_ALL_BITS,
    {
        DeviceType { bits: DEVICE_TYPE_ALL_BITS }
    }

    /// Get the raw underlying value.
    pub fn raw(&self) -> (r: u64)
        ensures
            r == self.bits,
    {
        self.bits
    }
}

impl core::ops::BitOr<DeviceType> for DeviceType {
    type Output = DeviceType;

    /// The union of two filters.
    fn bitor(self, rhs: DeviceType) -> (r: DeviceType) {
        DeviceType { bits: self.bits | rhs.bits }
    }
}

impl vstd::std_specs::ops::BitOrSpecImpl<DeviceType> for DeviceType {
    open spec fn obeys_bitor_spec() -> bool {
        true
    }

    open spec fn bitor_req(self, rhs: DeviceType) -> bool {
        true
    }

    open spec fn bitor_spec(self, rhs: DeviceType) -> DeviceType {
        DeviceType { bits: self.bits | rhs.bits }
    }
}

impl core::ops::BitAnd<DeviceType> for DeviceType {
    type Output = DeviceType;

    /// The intersection of two filters.
    fn bitand(self, rhs: DeviceType) -> (r: DeviceType) {
        DeviceType { bits: self.bits & rhs.bits }
    }
}

impl vstd::std_specs::ops::BitAndSpecImpl<DeviceType> for DeviceType {
    open spec fn obeys_bitand_spec() -> bool {
        true
    }

    open spec fn bitand_req(self, rhs: DeviceType) -> bool {
        true
    }

    open spec fn bitand_spec(self, rhs: DeviceType) -> DeviceType {
        DeviceType { bits: self.bits & rhs.bits }
    }
}

impl core::ops::Not for DeviceType {
    type Output = DeviceType;

    /// The complement of a filter, masked against the `all` sentinel so
    /// unused high bits never leak into the result.
    fn not(self) -> (r: DeviceType) {
        DeviceType { bits: (!self.bits) & DEVICE_TYPE_ALL_BITS }
    }
}

impl vstd::std_specs::ops::NotSpecImpl for DeviceType {
    open spec fn obeys_not_spec() -> bool {
        true
    }

    open spec fn not_req(self) -> bool {
        true
    }

    open spec fn not_spec(self) -> DeviceType {
        DeviceType { bits: (!self.bits) & DEVICE_TYPE_ALL_BITS }
    }
}

/// An OpenCL profile (full or embedded).
#[derive(Eq, PartialEq, Copy, Clone, Debug, Structural)]
pub enum Profile {
    /// The implementation supports the full OpenCL specification.
    Full,
    /// The implementation supports the OpenCL embedded profile, a subset
    /// defined for each version of OpenCL.
    Embedded,
}

/// The profile denoted by a string: exactly one of the two recognized
/// literals, case-sensitive, with no trimming.
pub open spec fn spec_parse_profile(s: Seq<char>) -> Option<Profile> {
    if s == "FULL_PROFILE"@ {
        Some(Profile::Full)
    } else if s == "EMBEDDED_PROFILE"@ {
        Some(Profile::Embedded)
    } else {
        None
    }
}

/// The literal that a profile prints as.
pub open spec fn spec_profile_text(p: Profile) -> Seq<char> {
    match p {
        Profile::Full => "FULL_PROFILE"@,
        Profile::Embedded => "EMBEDDED_PROFILE"@,
    }
}

impl TryFrom<String> for Profile {
    type Error = String;

    /// Parses a profile; an unrecognized string comes back verbatim as the
    /// error.
    fn try_from(value: String) -> (r: Result<Profile, String>) {
        let full = String::from_str("FULL_PROFILE");
        let embedded = String::from_str("EMBEDDED_PROFILE");
        if value == full {
            Ok(Profile::Full)
        } else if value == embedded {
            Ok(Profile::Embedded)
        } else {
            Err(value)
        }
    }
}

impl vstd::std_specs::convert::TryFromSpecImpl<String> for Profile {
    open spec fn obeys_try_from_spec() -> bool {
        true
    }

    open spec fn try_from_spec(value: String) -> Result<Profile, String> {
        match spec_parse_profile(value@) {
            Some(p) => Ok(p),
            None => Err(value),
        }
    }
}

impl Profile {
    /// The literal that this profile prints as; the exact inverse of
    /// parsing.
    pub fn to_text(&self) -> (r: String)
        ensures
            r@ == spec_profile_text(*self),
    {
        match *self {
            Profile::Full => String::from_str("FULL_PROFILE"),
            Profile::Embedded => String::from_str("EMBEDDED_PROFILE"),
        }
    }
}

/// Printing a profile and parsing it back returns the same profile.
pub proof fn lemma_profile_round_trip(p: Profile)
    ensures
        spec_parse_profile(spec_profile_text(p)) == Some(p),
{
    reveal_strlit("FULL_PROFILE");
    reveal_strlit("EMBEDDED_PROFILE");
    assert("FULL_PROFILE"@.len() != "EMBEDDED_PROFILE"@.len());
}

/// Parsing recognizes nothing but the two printed literals: a string that
/// parses as a profile is that profile's text, letter for letter.
pub proof fn lemma_profile_parse_inverts(s: Seq<char>, p: Profile)
    requires
        spec_parse_profile(s) == Some(p),
    ensures
        spec_profile_text(p) == s,
{
}

/// The literal token that every version string must open with.
pub open spec fn spec_opencl_tag() -> Seq<char> {
    seq!['O', 'p', 'e', 'n', 'C', 'L']
}

/// The mathematical value of a [`Version`]: the two numbers and the
/// characters of the optional free-text suffix.
#[verifier::ext_equal]
pub struct VersionView {
    /// The OpenCL major version.
    pub major: u8,
    /// The OpenCL minor version.
    pub minor: u8,
    /// Platform specific additional version information.
    pub extra: Option<Seq<char>>,
}

/// The version denoted by a string of the fixed grammar
/// `"OpenCL <major>.<minor>[ <suffix>]"`: the string splits on at most its
/// first two spaces; the first part must be the literal tag, the second
/// must hold exactly one `.` between two small unsigned decimal numbers,
/// and a third part, when present, becomes the suffix verbatim.
pub open spec fn spec_parse_version(s: Seq<char>) -> Option<VersionView> {
    let parts = spec_splitn3(s);
    if parts.len() < 2 || parts[0] != spec_opencl_tag() {
        None
    } else {
        let num = parts[1];
        let d = next_at(num, '.', 0);
        if d >= num.len() {
            None
        } else {
            let maj = spec_parse_u8(num.subrange(0, d));
            let min = spec_parse_u8(num.subrange(d + 1, num.len() as int));
            if maj is Some && min is Some {
                Some(VersionView {
                    major: maj->0,
                    minor: min->0,
                    extra: if parts.len() == 3 {
                        Some(parts[2])
                    } else {
                        None
                    },
                })
            } else {
                None
            }
        }
    }
}

/// The canonical text of a version value:
/// `"OpenCL {major}.{minor}"`, with `" {suffix}"` appended when a suffix
/// is present.
pub open spec fn spec_version_text(v: VersionView) -> Seq<char> {
    let base = spec_opencl_tag() + seq![' '] + spec_u8_dec(v.major) + seq!['.'] + spec_u8_dec(
        v.minor,
    );
    match v.extra {
        Some(e) => base + seq![' '] + e,
        None => base,
    }
}

/// OpenCL version information.
#[derive(Eq, Clone, Debug)]
pub struct Version {
    /// The OpenCL major version.
    major: u8,
    /// The OpenCL minor version.
    minor: u8,
    /// Platform specific additional version information.
    extra: Option<String>,
}

impl View for Version {
    type V = VersionView;

    closed spec fn view(&self) -> VersionView {
        VersionView {
            major: self.major,
            minor: self.minor,
            extra: match self.extra {
                Some(e) => Some(e@),
                None => None,
            },
        }
    }
}

impl PartialEq for Version {
    /// Versions are equal when their numbers and suffixes are.
    fn eq(&self, other: &Version) -> (r: bool) {
        let extra_eq = match (&self.extra, &other.extra) {
            (Some(a), Some(b)) => *a == *b,
            (None, None) => true,
            _ => false,
        };
        let r = self.major == other.major && self.minor == other.minor && extra_eq;
        proof {
            if r {
                assert(self@ =~= other@);
            }
        }
        r
    }
}

impl vstd::std_specs::cmp::PartialEqSpecImpl for Version {
    open spec fn obeys_eq_spec() -> bool {
        true
    }

    open spec fn eq_spec(&self, other: &Version) -> bool {
        self@ == other@
    }
}

impl Version {
    /// The OpenCL major version.
    pub fn major(&self) -> (r: u8)
        ensures
            r == self@.major,
    {
        self.major
    }

    /// The OpenCL minor version.
    pub fn minor(&self) -> (r: u8)
        ensures
            r == self@.minor,
    {
        self.minor
    }

    /// Platform specific additional version information.
    pub fn extra(&self) -> (r: &Option<String>)
        ensures
            (*r) is Some <==> self@.extra is Some,
            (*r) matches Some(e) ==> self@.extra == Some(e@),
    {
        &self.extra
    }

    /// Parses a version string of the grammar
    /// `"OpenCL <major>.<minor>[ <suffix>]"`; a string that does not match
    /// the grammar comes back verbatim as the error.
    pub fn try_from(value: String) -> (r: Result<Version, String>)
        ensures
            spec_parse_version(value@) matches Some(vv) ==> (r matches Ok(v) && v@ == vv),
            spec_parse_version(value@) is None ==> (r matches Err(e) && e == value),
    {
        let ghost s = value@;
        let chars = chars_of(value.as_str());
        let n = chars.len();
        let i1 = find_char(&chars, ' ', 0);
        proof {
            lemma_next_at(s, ' ', 0);
        }
        if i1 == n {
            return Err(value);
        }
        let ghost parts = spec_splitn3(s);
        let tag_ok = i1 == 6 && chars[0] == 'O' && chars[1] == 'p' && chars[2] == 'e'
            && chars[3] == 'n' && chars[4] == 'C' && chars[5] == 'L';
        proof {
            assert(spec_opencl_tag().len() == 6);
            assert(spec_opencl_tag()[0] == 'O' && spec_opencl_tag()[1] == 'p'
                && spec_opencl_tag()[2] == 'e' && spec_opencl_tag()[3] == 'n'
                && spec_opencl_tag()[4] == 'C' && spec_opencl_tag()[5] == 'L');
            if i1 == 6 {
                let p0 = s.subrange(0, 6);
                assert(p0[0] == s[0] && p0[1] == s[1] && p0[2] == s[2] && p0[3] == s[3] && p0[4]
                    == s[4] && p0[5] == s[5]);
                if tag_ok {
                    assert(p0 =~= spec_opencl_tag());
                }
            }
            if !tag_ok {
                assert(parts[0] != spec_opencl_tag());
            }
        }
        if !tag_ok {
            return Err(value);
        }
        let i2 = find_char(&chars, ' ', i1 + 1);
        proof {
            lemma_next_at(s, ' ', i1 + 1);
        }
        let ghost num = s.subrange(i1 + 1, i2 as int);
        proof {
            assert(parts.len() >= 2 && parts[1] == num);
        }
        let d = find_char(&chars, '.', i1 + 1);
        proof {
            lemma_next_at(s, '.', i1 + 1);
            if d < i2 {
                assert(forall|k: int| 0 <= k < d - i1 - 1 ==> num[k] == s[k + i1 + 1]);
                lemma_next_at_determined(num, '.', 0, d - i1 - 1);
            } else {
                assert(forall|k: int| 0 <= k < num.len() ==> num[k] == s[k + i1 + 1]);
                lemma_next_at_determined(num, '.', 0, num.len() as int);
            }
        }
        if d >= i2 {
            return Err(value);
        }
        let major = parse_u8_range(&chars, i1 + 1, d);
        let minor = parse_u8_range(&chars, d + 1, i2);
        proof {
            assert(s.subrange(i1 + 1, d as int) =~= num.subrange(0, d - i1 - 1));
            assert(s.subrange(d + 1, i2 as int) =~= num.subrange(d - i1 - 1 + 1, num.len() as int));
        }
        let major = match major {
            Some(m) => m,
            None => {
                return Err(value);
            },
        };
        let minor = match minor {
            Some(m) => m,
            None => {
                return Err(value);
            },
        };
        let extra = if i2 == n {
            None
        } else {
            Some(String::from_str(value.as_str().substring_char(i2 + 1, n)))
        };
        let v = Version { major, minor, extra };
        proof {
            assert(v@ == spec_parse_version(s)->0);
        }
        Ok(v)
    }

    /// The canonical text of this version:
    /// `"OpenCL {major}.{minor}"`, with `" {extra}"` appended when the
    /// suffix is present.
    pub fn to_text(&self) -> (r: String)
        ensures
            r@ == spec_version_text(self@),
    {
        let mut out = String::from_str("OpenCL ");
        proof {
            reveal_strlit("OpenCL ");
            assert(out@ =~= spec_opencl_tag() + seq![' ']);
        }
        append_u8_dec(&mut out, self.major);
        out.append(".");
        proof {
            reveal_strlit(".");
            assert("."@ =~= seq!['.']);
        }
        append_u8_dec(&mut out, self.minor);
        match &self.extra {
            Some(e) => {
                out.append(" ");
                proof {
                    reveal_strlit(" ");
                    assert(" "@ =~= seq![' ']);
                }
                out.append(e.as_str());
            },
            None => {},
        }
        proof {
            assert(out@ =~= spec_version_text(self@));
        }
        out
    }
}

/// Printing any version value and parsing the text back returns the same
/// value: the canonical text meets the grammar exactly, whatever the
/// numbers and whatever characters the suffix holds.
pub proof fn lemma_version_round_trip(v: VersionView)
    ensures
        spec_parse_version(spec_version_text(v)) == Some(v),
{
    let t = spec_version_text(v);
    let tag = spec_opencl_tag();
    let d_major = spec_u8_dec(v.major);
    let d_minor = spec_u8_dec(v.minor);
    crate::text::lemma_u8_dec_digits(v.major);
    crate::text::lemma_u8_dec_digits(v.minor);
    let c1 = tag + seq![' '];
    let c2 = c1 + d_major;
    let c3 = c2 + seq!['.'];
    let base = c3 + d_minor;
    assert(tag[0] == 'O' && tag[1] == 'p' && tag[2] == 'e' && tag[3] == 'n' && tag[4] == 'C'
        && tag[5] == 'L');
    assert(' ' as u32 == 32);
    assert('.' as u32 == 46);
    let dl = d_major.len() as int;
    let ml = d_minor.len() as int;
    assert(base.len() == 8 + dl + ml);
    // where each character of the text stands
    assert forall|k: int| 0 <= k < 6 implies base[k] == tag[k] by {
        assert(base[k] == c3[k]);
        assert(c3[k] == c2[k]);
        assert(c2[k] == c1[k]);
        assert(c1[k] == tag[k]);
    }
    assert(base[6] == ' ') by {
        assert(base[6] == c3[6]);
        assert(c3[6] == c2[6]);
        assert(c2[6] == c1[6]);
    }
    assert forall|k: int| 7 <= k < 7 + dl implies base[k] == d_major[k - 7] by {
        assert(base[k] == c3[k]);
        assert(c3[k] == c2[k]);
        assert(c2[k] == d_major[k - 7]);
    }
    assert(base[7 + dl] == '.') by {
        assert(base[7 + dl] == c3[7 + dl]);
    }
    assert forall|k: int| 8 + dl <= k < 8 + dl + ml implies base[k] == d_minor[k - 8 - dl] by {
        assert(base[k] == d_minor[k - 8 - dl]);
    }
    // digits are neither separators nor signs
    assert forall|k: int| 0 <= k < dl implies d_major[k] != ' ' && d_major[k] != '.' by {
        assert(crate::text::is_dec_digit(d_major[k]));
    }
    assert forall|k: int| 0 <= k < ml implies d_minor[k] != ' ' && d_minor[k] != '.' by {
        assert(crate::text::is_dec_digit(d_minor[k]));
    }
    // the text splits exactly at the separators that the template placed
    match v.extra {
        Some(e) => {
            assert(t == base + seq![' '] + e);
            assert forall|k: int| 0 <= k < base.len() implies t[k] == base[k] by {
                assert(t[k] == (base + seq![' '])[k]);
            }
            assert(t[base.len() as int] == ' ') by {
                assert(t[base.len() as int] == (base + seq![' '])[base.len() as int]);
            }
            assert forall|k: int|
                base.len() + 1 <= k < t.len() implies t[k] == e[k - base.len() - 1] by {}
            lemma_next_at_determined(t, ' ', 0, 6);
            lemma_next_at_determined(t, ' ', 7, 8 + dl + ml);
            let parts = spec_splitn3(t);
            assert(parts[0] =~= tag);
            let num = parts[1];
            assert(num =~= d_major + seq!['.'] + d_minor);
            assert(parts[2] =~= e);
            assert forall|k: int| 0 <= k < dl implies num[k] == d_major[k] by {
                assert(num[k] == (d_major + seq!['.'])[k]);
            }
            assert(num[dl] == '.') by {
                assert(num[dl] == (d_major + seq!['.'])[dl]);
            }
            lemma_next_at_determined(num, '.', 0, dl);
            assert(num.subrange(0, dl) =~= d_major);
            assert(num.subrange(dl + 1, num.len() as int) =~= d_minor);
            crate::text::lemma_u8_dec_parses_back(v.major);
            crate::text::lemma_u8_dec_parses_back(v.minor);
            assert(spec_parse_version(t)->0 =~= v);
        },
        None => {
            assert(t == base);
            lemma_next_at_determined(t, ' ', 0, 6);
            lemma_next_at_determined(t, ' ', 7, t.len() as int);
            let parts = spec_splitn3(t);
            assert(parts[0] =~= tag);
            let num = parts[1];
            assert(num =~= d_major + seq!['.'] + d_minor);
            assert forall|k: int| 0 <= k < dl implies num[k] == d_major[k] by {
                assert(num[k] == (d_major + seq!['.'])[k]);
            }
            assert(num[dl] == '.') by {
                assert(num[dl] == (d_major + seq!['.'])[dl]);
            }
            lemma_next_at_determined(num, '.', 0, dl);
            assert(num.subrange(0, dl) =~= d_major);
            assert(num.subrange(dl + 1, num.len() as int) =~= d_minor);
            crate::text::lemma_u8_dec_parses_back(v.major);
            crate::text::lemma_u8_dec_parses_back(v.minor);
            assert(spec_parse_version(t)->0 =~= v);
        },
    }
}

/// Absorption law of the filter algebra: for any two filters,
/// `(a | b) & a == a`.
pub proof fn lemma_device_type_absorption(a: DeviceType, b: DeviceType)
    ensures
        a.bitor_spec(b).bitand_spec(a) == a,
{
    let x = a.bits;
    let y = b.bits;
    assert((x | y) & x == x) by (bit_vector);
}

/// Double complement law of the filter algebra: `!(!a)` is `a` masked to
/// the `all` sentinel. For every filter built from the named flags the mask
/// changes nothing, so `!(!a) == a` there.
pub proof fn lemma_device_type_double_complement(a: DeviceType)
    ensures
        a.not_spec().not_spec() == a.bitand_spec(DeviceType { bits: DEVICE_TYPE_ALL_BITS }),
        a.bits <= DEVICE_TYPE_ALL_BITS ==> a.not_spec().not_spec() == a,
{
    let x = a.bits;
    assert((!((!x) & 0xFFFFFFFFu64)) & 0xFFFFFFFFu64 == x & 0xFFFFFFFFu64) by (bit_vector);
    assert(x <= 0xFFFFFFFFu64 ==> x & 0xFFFFFFFFu64 == x) by (bit_vector);
}

} // verus!
