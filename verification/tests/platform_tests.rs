use rusty_cl::native::ScriptedCl;
use rusty_cl::platform::{cl_get_platform_ids, cl_get_platform_info, Platform};
use rusty_cl::result::Error;
use rusty_cl::types::{PlatformInfo, Profile};

/// A successful probe-and-fetch reply pair for one NUL-terminated string
/// attribute.
fn push_info(rt: &mut ScriptedCl, text: &str) {
    let mut bytes = text.as_bytes().to_vec();
    bytes.push(0);
    rt.platform_info_len_replies.push((0, bytes.len()));
    rt.platform_info_bytes_replies.push((0, bytes));
}

/// Replies for the five snapshot queries of one platform, in their fixed
/// order.
fn push_snapshot_replies(rt: &mut ScriptedCl, profile: &str, version: &str, name: &str, vendor: &str, extensions: &str) {
    push_info(rt, profile);
    push_info(rt, version);
    push_info(rt, name);
    push_info(rt, vendor);
    push_info(rt, extensions);
}

#[test]
fn query_platforms() {
    let mut rt = ScriptedCl::new();
    rt.platform_count_replies.push((0, 1));
    rt.platform_list_replies.push((0, vec![42]));
    // one set of replies for the snapshot, and one for the per-attribute
    // queries that the test repeats by hand
    for _ in 0..2 {
        push_snapshot_replies(
            &mut rt,
            "FULL_PROFILE",
            "OpenCL 1.2 SomeVendorBuild",
            "Some Platform",
            "Some Vendor",
            "cl_khr_icd cl_khr_fp64",
        );
    }
    let platform_ids = cl_get_platform_ids(&mut rt);
    assert_eq!(platform_ids.len(), 1);
    for id in platform_ids {
        assert_ne!(id, 0);
        let platform = Platform::get(&mut rt, id).unwrap();
        assert_eq!(id, platform.id());
        let profile: Profile = cl_get_platform_info(&mut rt, id, PlatformInfo::Profile)
            .unwrap()
            .try_into()
            .unwrap();
        assert_eq!(profile, platform.profile());
        assert_eq!(
            cl_get_platform_info(&mut rt, id, PlatformInfo::Version).unwrap(),
            platform.version()
        );
        assert_eq!(
            cl_get_platform_info(&mut rt, id, PlatformInfo::Name).unwrap(),
            platform.name()
        );
        assert_eq!(
            cl_get_platform_info(&mut rt, id, PlatformInfo::Vendor).unwrap(),
            platform.vendor()
        );
        assert_eq!(
            cl_get_platform_info(&mut rt, id, PlatformInfo::Extensions).unwrap(),
            platform.extensions().join(" ")
        );
    }
}

#[test]
fn platform_ids_empty_when_none_exist() {
    let mut rt = ScriptedCl::new();
    rt.platform_count_replies.push((0, 0));
    assert_eq!(cl_get_platform_ids(&mut rt), Vec::<usize>::new());
    // a zero count never asks for the list
    assert_eq!(rt.platform_list_calls, 0);
}

#[test]
fn zero_length_info_is_empty_without_second_call() {
    let mut rt = ScriptedCl::new();
    rt.platform_info_len_replies.push((0, 0));
    let text = cl_get_platform_info(&mut rt, 42, PlatformInfo::Name).unwrap();
    assert_eq!(text, "");
    assert_eq!(rt.platform_info_len_calls, 1);
    assert_eq!(rt.platform_info_bytes_calls, 0);
}

#[test]
fn failing_probe_maps_its_status() {
    let mut rt = ScriptedCl::new();
    rt.platform_info_len_replies.push((-32, 0));
    assert_eq!(
        cl_get_platform_info(&mut rt, 42, PlatformInfo::Name),
        Err(Error::InvalidPlatform)
    );
    assert_eq!(rt.platform_info_bytes_calls, 0);
}

#[test]
fn failing_fetch_maps_its_status() {
    let mut rt = ScriptedCl::new();
    rt.platform_info_len_replies.push((0, 6));
    rt.platform_info_bytes_replies.push((-30, Vec::new()));
    assert_eq!(
        cl_get_platform_info(&mut rt, 42, PlatformInfo::Name),
        Err(Error::InvalidValue)
    );
}

#[test]
fn info_strips_one_trailing_nul_and_decodes_utf8() {
    let mut rt = ScriptedCl::new();
    push_info(&mut rt, "Caf\u{e9} Platform");
    let text = cl_get_platform_info(&mut rt, 42, PlatformInfo::Name).unwrap();
    assert_eq!(text, "Caf\u{e9} Platform");
    assert_eq!(text.chars().count(), 13);
}

#[test]
fn malformed_text_is_an_encoding_error() {
    let mut rt = ScriptedCl::new();
    rt.platform_info_len_replies.push((0, 3));
    rt.platform_info_bytes_replies.push((0, vec![0xFF, 0xFE, 0x00]));
    assert_eq!(
        cl_get_platform_info(&mut rt, 42, PlatformInfo::Name),
        Err(Error::InvalidEncoding)
    );
}

#[test]
fn snapshot_holds_all_five_attributes() {
    let mut rt = ScriptedCl::new();
    push_snapshot_replies(
        &mut rt,
        "EMBEDDED_PROFILE",
        "OpenCL 3.0",
        "Example",
        "Example Vendor",
        "ext_a ext_b ext_c",
    );
    let p = Platform::get(&mut rt, 7).unwrap();
    assert_eq!(p.id(), 7);
    assert_eq!(p.profile(), Profile::Embedded);
    assert_eq!(p.version(), "OpenCL 3.0");
    assert_eq!(p.name(), "Example");
    assert_eq!(p.vendor(), "Example Vendor");
    assert_eq!(
        p.extensions(),
        &vec![
            String::from("ext_a"),
            String::from("ext_b"),
            String::from("ext_c")
        ]
    );
}

#[test]
fn empty_extensions_string_is_one_empty_token() {
    let mut rt = ScriptedCl::new();
    push_snapshot_replies(&mut rt, "FULL_PROFILE", "OpenCL 1.2", "N", "V", "");
    let p = Platform::get(&mut rt, 7).unwrap();
    assert_eq!(p.extensions(), &vec![String::new()]);
}

#[test]
fn snapshot_fails_atomically_on_bad_profile() {
    let mut rt = ScriptedCl::new();
    push_snapshot_replies(&mut rt, "SOME_PROFILE", "OpenCL 1.2", "N", "V", "x");
    assert_eq!(Platform::get(&mut rt, 7).unwrap_err(), Error::InvalidValue);
}

#[test]
fn snapshot_fails_atomically_on_bad_version() {
    let mut rt = ScriptedCl::new();
    push_snapshot_replies(&mut rt, "FULL_PROFILE", "2.1", "N", "V", "x");
    assert_eq!(Platform::get(&mut rt, 7).unwrap_err(), Error::InvalidValue);
}

#[test]
fn snapshot_surfaces_query_failure() {
    let mut rt = ScriptedCl::new();
    push_info(&mut rt, "FULL_PROFILE");
    rt.platform_info_len_replies.push((-32, 0));
    assert_eq!(Platform::get(&mut rt, 7).unwrap_err(), Error::InvalidPlatform);
    // the failing query stops the snapshot: the later ones are not issued
    assert_eq!(rt.platform_info_len_calls, 2);
}

#[test]
fn assemble_carries_the_five_attributes() {
    let p = Platform::assemble(
        11,
        String::from("FULL_PROFILE"),
        String::from("OpenCL 2.2 build"),
        String::from("Name"),
        String::from("Vendor"),
        String::from("a b"),
    )
    .unwrap();
    assert_eq!(p.id(), 11);
    assert_eq!(p.profile(), Profile::Full);
    assert_eq!(p.version(), "OpenCL 2.2 build");
    assert_eq!(p.name(), "Name");
    assert_eq!(p.vendor(), "Vendor");
    assert_eq!(p.extensions(), &vec![String::from("a"), String::from("b")]);
}

#[test]
fn assemble_rejects_unparsed_profile_or_version() {
    let e = Platform::assemble(
        11,
        String::from("full_profile"),
        String::from("OpenCL 2.2"),
        String::new(),
        String::new(),
        String::new(),
    )
    .unwrap_err();
    assert_eq!(e, Error::InvalidValue);
    let e = Platform::assemble(
        11,
        String::from("FULL_PROFILE"),
        String::from("2.2"),
        String::new(),
        String::new(),
        String::new(),
    )
    .unwrap_err();
    assert_eq!(e, Error::InvalidValue);
}

#[test]
fn platform_fill_shortfall_is_an_empty_listing() {
    // a fill reply whose length breaks the probed count is dropped
    let mut rt = ScriptedCl::new();
    rt.platform_count_replies.push((0, 2));
    rt.platform_list_replies.push((0, vec![5]));
    assert_eq!(cl_get_platform_ids(&mut rt), Vec::<usize>::new());
    // so is a failing fill call: this listing has no error channel
    let mut rt = ScriptedCl::new();
    rt.platform_count_replies.push((0, 2));
    rt.platform_list_replies.push((-30, vec![5, 6]));
    assert_eq!(cl_get_platform_ids(&mut rt), Vec::<usize>::new());
}

#[test]
fn lenient_listing_drops_only_broken_platforms() {
    let mut rt = ScriptedCl::new();
    rt.platform_count_replies.push((0, 3));
    rt.platform_list_replies.push((0, vec![1, 2, 3]));
    push_snapshot_replies(&mut rt, "FULL_PROFILE", "OpenCL 1.2", "One", "V1", "a b");
    // the second platform reports a profile that does not parse, so its
    // snapshot is dropped from the listing
    push_snapshot_replies(&mut rt, "BOGUS", "OpenCL 1.1", "Two", "V2", "b");
    push_snapshot_replies(&mut rt, "EMBEDDED_PROFILE", "OpenCL 2.0", "Three", "V3", "c");
    let all = Platform::get_all(&mut rt);
    assert_eq!(all.len(), 2);
    assert_eq!(all[0].id(), 1);
    assert_eq!(all[0].name(), "One");
    assert_eq!(all[1].id(), 3);
    assert_eq!(all[1].name(), "Three");
}

#[test]
fn lenient_listing_never_exceeds_the_id_count() {
    let mut rt = ScriptedCl::new();
    rt.platform_count_replies.push((0, 2));
    rt.platform_list_replies.push((0, vec![5, 6]));
    // every snapshot fails: the listing is empty, not an error
    rt.platform_info_len_replies.push((-32, 0));
    rt.platform_info_len_replies.push((-32, 0));
    let all = Platform::get_all(&mut rt);
    assert_eq!(all.len(), 0);
}

#[test]
fn default_platform_is_the_first_enumerated() {
    let mut rt = ScriptedCl::new();
    rt.platform_count_replies.push((0, 2));
    rt.platform_list_replies.push((0, vec![9, 10]));
    push_snapshot_replies(&mut rt, "FULL_PROFILE", "OpenCL 2.2", "First", "V", "x");
    let p = Platform::get_default(&mut rt).unwrap();
    assert_eq!(p.id(), 9);
    assert_eq!(p.name(), "First");
}

#[test]
fn default_platform_without_any_is_an_error() {
    let mut rt = ScriptedCl::new();
    rt.platform_count_replies.push((0, 0));
    assert_eq!(Platform::get_default(&mut rt).unwrap_err(), Error::NoPlatform);
}
