use rusty_cl::device::{
    cl_get_device_ids, cl_get_device_info_string, cl_get_device_info_u32, cl_get_device_info_u64,
};
use rusty_cl::native::ScriptedCl;
use rusty_cl::result::Error;
use rusty_cl::types::{DeviceInfo, DeviceType};

#[test]
fn not_found_is_an_empty_listing() {
    let mut rt = ScriptedCl::new();
    rt.device_count_replies.push((-1, 0));
    let ids = cl_get_device_ids(&mut rt, 42, DeviceType::gpu()).unwrap();
    assert_eq!(ids, Vec::<usize>::new());
    // "not found" never asks for the list
    assert_eq!(rt.device_list_calls, 0);
}

#[test]
fn devices_come_back_in_reported_order() {
    let mut rt = ScriptedCl::new();
    rt.device_count_replies.push((0, 2));
    rt.device_list_replies.push((0, vec![10, 11]));
    let ids = cl_get_device_ids(&mut rt, 42, DeviceType::all()).unwrap();
    assert_eq!(ids, vec![10, 11]);
}

#[test]
fn zero_devices_skip_the_second_call() {
    let mut rt = ScriptedCl::new();
    rt.device_count_replies.push((0, 0));
    let ids = cl_get_device_ids(&mut rt, 42, DeviceType::cpu()).unwrap();
    assert_eq!(ids, Vec::<usize>::new());
    assert_eq!(rt.device_list_calls, 0);
}

#[test]
fn invalid_platform_fails_the_listing() {
    let mut rt = ScriptedCl::new();
    rt.device_count_replies.push((-32, 0));
    assert_eq!(
        cl_get_device_ids(&mut rt, 999, DeviceType::all()).unwrap_err(),
        Error::InvalidPlatform
    );
}

#[test]
fn failing_fill_call_is_surfaced_not_retried() {
    let mut rt = ScriptedCl::new();
    rt.device_count_replies.push((0, 2));
    rt.device_list_replies.push((-30, Vec::new()));
    assert_eq!(
        cl_get_device_ids(&mut rt, 42, DeviceType::all()).unwrap_err(),
        Error::InvalidValue
    );
    assert_eq!(rt.device_count_calls, 1);
    assert_eq!(rt.device_list_calls, 1);
}

#[test]
fn device_fill_shortfall_is_unknown() {
    // a fill reply whose length breaks the probed count never becomes a
    // listing
    let mut rt = ScriptedCl::new();
    rt.device_count_replies.push((0, 3));
    rt.device_list_replies.push((0, vec![10, 11]));
    assert_eq!(
        cl_get_device_ids(&mut rt, 42, DeviceType::all()).unwrap_err(),
        Error::Unknown
    );
}

#[test]
fn scalar_size_mismatch_fails_before_any_read() {
    let mut rt = ScriptedCl::new();
    rt.device_info_len_replies.push((0, 5));
    assert_eq!(
        cl_get_device_info_u32(&mut rt, 3, DeviceInfo::VendorId).unwrap_err(),
        Error::InvalidValue
    );
    // the mismatch is decided on the declared size alone: no second call,
    // no out-of-bounds read, no zero-fill
    assert_eq!(rt.device_info_bytes_calls, 0);

    let mut rt = ScriptedCl::new();
    rt.device_info_len_replies.push((0, 4));
    assert_eq!(
        cl_get_device_info_u64(&mut rt, 3, DeviceInfo::GlobalMemSize).unwrap_err(),
        Error::InvalidValue
    );
    assert_eq!(rt.device_info_bytes_calls, 0);
}

#[test]
fn scalar_u32_decodes_little_endian() {
    let mut rt = ScriptedCl::new();
    rt.device_info_len_replies.push((0, 4));
    rt.device_info_bytes_replies.push((0, vec![0x78, 0x56, 0x34, 0x12]));
    assert_eq!(
        cl_get_device_info_u32(&mut rt, 3, DeviceInfo::VendorId).unwrap(),
        0x12345678
    );
}

#[test]
fn scalar_u64_decodes_little_endian() {
    let mut rt = ScriptedCl::new();
    rt.device_info_len_replies.push((0, 8));
    rt.device_info_bytes_replies.push((0, vec![8, 7, 6, 5, 4, 3, 2, 1]));
    assert_eq!(
        cl_get_device_info_u64(&mut rt, 3, DeviceInfo::GlobalMemSize).unwrap(),
        0x0102030405060708
    );
}

#[test]
fn scalar_probe_failure_maps_its_status() {
    let mut rt = ScriptedCl::new();
    rt.device_info_len_replies.push((-30, 0));
    assert_eq!(
        cl_get_device_info_u32(&mut rt, 3, DeviceInfo::VendorId).unwrap_err(),
        Error::InvalidValue
    );
    let mut rt = ScriptedCl::new();
    rt.device_info_len_replies.push((-9999, 0));
    assert_eq!(
        cl_get_device_info_u64(&mut rt, 3, DeviceInfo::GlobalMemSize).unwrap_err(),
        Error::Unknown
    );
}

#[test]
fn device_string_is_nul_trimmed() {
    let mut rt = ScriptedCl::new();
    let mut bytes = b"Some Accelerator".to_vec();
    bytes.push(0);
    rt.device_info_len_replies.push((0, bytes.len()));
    rt.device_info_bytes_replies.push((0, bytes));
    assert_eq!(
        cl_get_device_info_string(&mut rt, 3, DeviceInfo::Name).unwrap(),
        "Some Accelerator"
    );
}

#[test]
fn zero_length_device_string_skips_the_second_call() {
    let mut rt = ScriptedCl::new();
    rt.device_info_len_replies.push((0, 0));
    assert_eq!(
        cl_get_device_info_string(&mut rt, 3, DeviceInfo::Extensions).unwrap(),
        ""
    );
    assert_eq!(rt.device_info_bytes_calls, 0);
}
