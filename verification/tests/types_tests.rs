use rusty_cl::types::{DeviceInfo, DeviceType, PlatformInfo, Profile, Version};

#[test]
fn filter_absorption_on_flags() {
    let pairs = [
        (DeviceType::cpu(), DeviceType::gpu()),
        (DeviceType::cpu() | DeviceType::gpu(), DeviceType::accelerator()),
        (DeviceType::all(), DeviceType::custom()),
        (DeviceType::default_device(), DeviceType::default_device()),
    ];
    for (a, b) in pairs {
        assert_eq!((a | b) & a, a);
    }
}

#[test]
fn filter_double_complement() {
    let filters = [
        DeviceType::default_device(),
        DeviceType::cpu(),
        DeviceType::gpu() | DeviceType::custom(),
        DeviceType::all(),
    ];
    for a in filters {
        assert_eq!(!(!a), a);
    }
}

#[test]
fn filter_complement_masks_to_all() {
    assert_eq!((!DeviceType::cpu()).raw(), 0xFFFFFFFD);
    assert_eq!((!DeviceType::all()).raw(), 0);
    assert_eq!(!(!DeviceType::all()), DeviceType::all());
}

#[test]
fn filter_raw_bits() {
    assert_eq!(DeviceType::default_device().raw(), 1);
    assert_eq!(DeviceType::cpu().raw(), 2);
    assert_eq!(DeviceType::gpu().raw(), 4);
    assert_eq!(DeviceType::accelerator().raw(), 8);
    assert_eq!(DeviceType::custom().raw(), 16);
    assert_eq!(DeviceType::all().raw(), 0xFFFFFFFF);
    assert_eq!((DeviceType::cpu() | DeviceType::gpu()).raw(), 6);
    assert_eq!((DeviceType::all() & DeviceType::gpu()).raw(), 4);
}

#[test]
fn platform_selector_codes() {
    assert_eq!(PlatformInfo::Profile.code(), 0x0900);
    assert_eq!(PlatformInfo::Version.code(), 0x0901);
    assert_eq!(PlatformInfo::Name.code(), 0x0902);
    assert_eq!(PlatformInfo::Vendor.code(), 0x0903);
    assert_eq!(PlatformInfo::Extensions.code(), 0x0904);
}

#[test]
fn device_selector_codes() {
    assert_eq!(DeviceInfo::Type.code(), 0x1000);
    assert_eq!(DeviceInfo::MaxComputeUnits.code(), 0x1002);
    assert_eq!(DeviceInfo::DoubleFpConfig.code(), 0x1032);
    // the code space has a gap: no selector carries 0x1033
    assert_eq!(DeviceInfo::PreferredVectorWidthHalf.code(), 0x1034);
    assert_eq!(DeviceInfo::Name.code(), 0x102B);
    assert_eq!(DeviceInfo::PrintfBufferSize.code(), 0x1049);
}

#[test]
fn parse_profile_exact() {
    assert_eq!(
        Profile::try_from(String::from("FULL_PROFILE")),
        Ok(Profile::Full)
    );
    assert_eq!(
        Profile::try_from(String::from("EMBEDDED_PROFILE")),
        Ok(Profile::Embedded)
    );
}

#[test]
fn parse_profile_is_case_sensitive() {
    assert_eq!(
        Profile::try_from(String::from("full_profile")),
        Err(String::from("full_profile"))
    );
    assert_eq!(
        Profile::try_from(String::from("FULL_PROFILE ")),
        Err(String::from("FULL_PROFILE "))
    );
    assert_eq!(Profile::try_from(String::new()), Err(String::new()));
}

#[test]
fn profile_text_is_the_literal() {
    assert_eq!(Profile::Full.to_text(), "FULL_PROFILE");
    assert_eq!(Profile::Embedded.to_text(), "EMBEDDED_PROFILE");
}

#[test]
fn parse_version_plain() {
    let v = Version::try_from(String::from("OpenCL 1.2")).unwrap();
    assert_eq!(v.major(), 1);
    assert_eq!(v.minor(), 2);
    assert_eq!(v.extra(), &None);
}

#[test]
fn parse_version_with_suffix() {
    let v = Version::try_from(String::from("OpenCL 2.1 (Vendor Build 123)")).unwrap();
    assert_eq!(v.major(), 2);
    assert_eq!(v.minor(), 1);
    assert_eq!(v.extra(), &Some(String::from("(Vendor Build 123)")));
}

#[test]
fn parse_version_requires_tag() {
    assert_eq!(
        Version::try_from(String::from("2.1")),
        Err(String::from("2.1"))
    );
    assert_eq!(
        Version::try_from(String::from("OpenGL 2.1")),
        Err(String::from("OpenGL 2.1"))
    );
    assert_eq!(
        Version::try_from(String::from("OpenCL")),
        Err(String::from("OpenCL"))
    );
}

#[test]
fn parse_version_rejects_bad_numbers() {
    assert_eq!(
        Version::try_from(String::from("OpenCL 12")),
        Err(String::from("OpenCL 12"))
    );
    assert_eq!(
        Version::try_from(String::from("OpenCL 1.2.3")),
        Err(String::from("OpenCL 1.2.3"))
    );
    assert_eq!(
        Version::try_from(String::from("OpenCL a.2")),
        Err(String::from("OpenCL a.2"))
    );
    assert_eq!(
        Version::try_from(String::from("OpenCL 300.0")),
        Err(String::from("OpenCL 300.0"))
    );
    assert_eq!(
        Version::try_from(String::from("OpenCL .2")),
        Err(String::from("OpenCL .2"))
    );
    assert_eq!(
        Version::try_from(String::from("OpenCL  1.2")),
        Err(String::from("OpenCL  1.2"))
    );
}

#[test]
fn parse_version_number_grammar_quirks() {
    // the number grammar is that of u8 parsing: a leading plus sign and
    // leading zeros are accepted
    let v = Version::try_from(String::from("OpenCL +1.02")).unwrap();
    assert_eq!(v.major(), 1);
    assert_eq!(v.minor(), 2);
    // a trailing space makes an empty suffix
    let v = Version::try_from(String::from("OpenCL 1.2 ")).unwrap();
    assert_eq!(v.extra(), &Some(String::new()));
    // the suffix keeps any further spaces verbatim
    let v = Version::try_from(String::from("OpenCL 3.0 a b c")).unwrap();
    assert_eq!(v.extra(), &Some(String::from("a b c")));
}

#[test]
fn format_version_round_trip() {
    let v = Version::try_from(String::from("OpenCL 1.2")).unwrap();
    assert_eq!(v.to_text(), "OpenCL 1.2");
    let v = Version::try_from(String::from("OpenCL 2.1 (Vendor Build 123)")).unwrap();
    assert_eq!(v.to_text(), "OpenCL 2.1 (Vendor Build 123)");
    let v = Version::try_from(String::from("OpenCL 0.0")).unwrap();
    assert_eq!(v.to_text(), "OpenCL 0.0");
    let v = Version::try_from(String::from("OpenCL 255.103")).unwrap();
    assert_eq!(v.to_text(), "OpenCL 255.103");
}

#[test]
fn version_equality_follows_fields() {
    let a = Version::try_from(String::from("OpenCL 1.2")).unwrap();
    let b = Version::try_from(String::from("OpenCL 01.2")).unwrap();
    let c = Version::try_from(String::from("OpenCL 1.2 x")).unwrap();
    assert_eq!(a, b);
    assert_ne!(a, c);
}
