use plows_gpu::device::{GpuDevice, Vendor};
use plows_gpu::dynlib::{c_string_from_buf, join_strs, library_not_found, missing_symbol};
use plows_gpu::error::GpuError;
use plows_gpu::text::{
    decimal_string, push_hex_padded, str_eq_ignore_ascii_case, to_ascii_lowercase,
};

#[test]
fn candidate_names_match_vendor_sonames() {
    assert_eq!(
        plows_gpu::dynlib::nvml_candidates(),
        &["libnvidia-ml.so.1", "libnvidia-ml.so"]
    );
    assert_eq!(plows_gpu::dynlib::amdsmi_candidates().len(), 4);
    assert_eq!(plows_gpu::dynlib::amdsmi_candidates()[2], "/opt/rocm/lib/libamd_smi.so");
    assert_eq!(
        plows_gpu::dynlib::level_zero_candidates(),
        &["libze_loader.so.1", "libze_loader.so"]
    );
}

#[test]
fn c_string_stops_at_first_nul() {
    assert_eq!(c_string_from_buf(b"abc\0def\0"), "abc");
    assert_eq!(c_string_from_buf(b"no terminator"), "no terminator");
    assert_eq!(c_string_from_buf(b"\0abc"), "");
    assert_eq!(c_string_from_buf(b""), "");
}

#[test]
fn c_string_replaces_invalid_utf8() {
    assert_eq!(c_string_from_buf(&[0x61, 0xff, 0x62, 0]), "a\u{fffd}b");
}

#[test]
fn missing_library_error_lists_candidates() {
    let err = library_not_found(&["/nonexistent/path/libnvidia-ml.so.1", "/also/missing/libamd_smi.so"]);
    match &err {
        GpuError::LibraryNotFound { candidates } => {
            assert_eq!(
                candidates,
                "/nonexistent/path/libnvidia-ml.so.1, /also/missing/libamd_smi.so"
            );
            assert!(candidates.contains("libnvidia-ml"));
            assert!(candidates.contains("libamd_smi"));
        }
        other => panic!("unexpected error: {}", other.message()),
    }
    assert_eq!(
        err.message(),
        "GPU library not found (tried: /nonexistent/path/libnvidia-ml.so.1, /also/missing/libamd_smi.so)"
    );
}

#[test]
fn missing_symbol_error_trims_nul() {
    let err = missing_symbol(b"is_gpu_symbol_that_does_not_exist\0", "libc");
    match &err {
        GpuError::MissingSymbol { name, library } => {
            assert_eq!(name, "is_gpu_symbol_that_does_not_exist");
            assert_eq!(library, "libc");
        }
        other => panic!("unexpected error: {}", other.message()),
    }
    assert_eq!(
        err.message(),
        "missing symbol `is_gpu_symbol_that_does_not_exist` in libc"
    );
}

#[test]
fn missing_symbol_with_invalid_utf8_shows_question_mark() {
    match missing_symbol(&[0xff, 0xfe, 0], "libx") {
        GpuError::MissingSymbol { name, .. } => assert_eq!(name, "?"),
        other => panic!("unexpected error: {}", other.message()),
    }
}

#[test]
fn error_messages() {
    assert_eq!(
        GpuError::InitializationFailed("nvmlInit_v2 returned 3".into()).message(),
        "GPU initialization failed: nvmlInit_v2 returned 3"
    );
    assert_eq!(GpuError::DeviceQueryFailed("x".into()).message(), "device query failed: x");
    assert_eq!(GpuError::Unsupported("y".into()).message(), "unsupported: y");
    assert_eq!(GpuError::Unknown("z".into()).message(), "unknown GPU error: z");
}

#[test]
fn join_with_separator() {
    assert_eq!(join_strs(&[], ", "), "");
    assert_eq!(join_strs(&["a"], ", "), "a");
    assert_eq!(join_strs(&["a", "b", "c"], "-"), "a-b-c");
}

#[test]
fn decimal_and_hex_rendering() {
    assert_eq!(decimal_string(0), "0");
    assert_eq!(decimal_string(12040), "12040");
    assert_eq!(decimal_string(u64::MAX), "18446744073709551615");
    let mut s = String::new();
    push_hex_padded(&mut s, 0x3, 4);
    assert_eq!(s, "0003");
    let mut s = String::new();
    push_hex_padded(&mut s, 0xabcde, 2);
    assert_eq!(s, "abcde");
    let mut s = String::new();
    push_hex_padded(&mut s, 0, 1);
    assert_eq!(s, "0");
}

#[test]
fn ascii_case_folding() {
    assert_eq!(to_ascii_lowercase("HiGh Ü"), "high Ü");
    assert!(str_eq_ignore_ascii_case("UNKNOWN", "unknown"));
    assert!(!str_eq_ignore_ascii_case("unknow", "unknown"));
}

#[test]
fn vendor_labels() {
    assert_eq!(Vendor::Nvidia.as_str(), "nvidia");
    assert_eq!(Vendor::Amd.as_str(), "amd");
    assert_eq!(Vendor::Intel.as_str(), "intel");
}

#[test]
fn new_device_has_only_identity() {
    let d = GpuDevice::new(Vendor::Amd, 3, "u".into(), "m".into());
    assert_eq!(d.vendor, Vendor::Amd);
    assert_eq!(d.index, 3);
    assert_eq!(d.uuid, "u");
    assert_eq!(d.model, "m");
    assert_eq!(d.pci_bus_id, "");
    assert_eq!(d.architecture, "");
    assert_eq!(d.memory_total, None);
    assert_eq!(d.serial, None);
}
