use plows_gpu::collector::{export_selection, memory_free, snapshot_plan, VendorFilter};
use plows_gpu::ctl::CtlError;
use plows_gpu::device::{GpuDevice, Vendor};
use plows_gpu::dynlib::c_string_from_buf;
use plows_gpu::manager::{concat_lists, first_reported};

#[test]
fn plan_numbers_reported_devices_only() {
    let backends = vec![
        (Vendor::Nvidia, vec![true, false, true]),
        (Vendor::Amd, vec![true]),
        (Vendor::Intel, vec![true, true]),
    ];
    let filter = VendorFilter { nvidia: true, amd: false, intel: true };
    let plan = snapshot_plan(filter, &backends);
    assert_eq!(
        plan,
        vec![(0, Vendor::Nvidia, 0), (1, Vendor::Nvidia, 2), (2, Vendor::Intel, 0), (3, Vendor::Intel, 1)]
    );
    assert!(snapshot_plan(VendorFilter { nvidia: false, amd: false, intel: false }, &backends).is_empty());
}

#[test]
fn free_memory_saturates() {
    assert_eq!(memory_free(Some(100), Some(30)), Some(70));
    assert_eq!(memory_free(Some(10), Some(30)), Some(0));
    assert_eq!(memory_free(None, Some(30)), None);
    assert_eq!(memory_free(Some(10), None), None);
}

fn flags(f: VendorFilter) -> (bool, bool, bool) {
    (f.nvidia, f.amd, f.intel)
}

#[test]
fn export_flags_select_collectors() {
    let (f, sys) = export_selection(false, false, false, false);
    assert_eq!((flags(f), sys), ((true, true, true), true));
    let (f, sys) = export_selection(true, false, false, true);
    assert_eq!((flags(f), sys), ((true, true, true), true));
    let (f, sys) = export_selection(true, false, false, false);
    assert_eq!((flags(f), sys), ((true, false, false), false));
    let (f, sys) = export_selection(false, true, true, false);
    assert_eq!((flags(f), sys), ((false, true, false), true));
    let (f, sys) = export_selection(false, false, true, false);
    assert_eq!((flags(f), sys), ((false, false, false), true));
}

#[test]
fn lists_concatenate_in_order() {
    assert_eq!(concat_lists(vec![vec![1, 2], vec![], vec![3]]), vec![1, 2, 3]);
    assert_eq!(concat_lists::<u8>(vec![]), Vec::<u8>::new());
}

#[test]
fn first_reported_value_wins() {
    let v = vec![None, Some("550.1".to_string()), Some("other".to_string())];
    assert_eq!(first_reported(&v), Some("550.1".to_string()));
    assert_eq!(first_reported(&[None, None]), None);
}

#[test]
fn missing_index_message() {
    assert_eq!(CtlError::MissingGpuIndex.message(), "Specify GPU index or use --all");
}

#[test]
fn c_string_round_trip() {
    let s = "GPU ümlaut";
    let mut buf = s.as_bytes().to_vec();
    buf.push(0);
    buf.extend_from_slice(b"junk\xff");
    assert_eq!(c_string_from_buf(&buf), s);
    assert_eq!(c_string_from_buf(s.as_bytes()), s);
    assert!(!c_string_from_buf(b"ab\xffcd").contains('\0'));
}

#[test]
fn devices_join_in_vendor_order() {
    let nvidia = vec![
        GpuDevice::new(Vendor::Nvidia, 0, "GPU-a".to_string(), "RTX".to_string()),
        GpuDevice::new(Vendor::Nvidia, 1, "GPU-b".to_string(), "RTX".to_string()),
    ];
    let amd = vec![GpuDevice::new(Vendor::Amd, 0, "amd-0".to_string(), "MI300".to_string())];
    let all = concat_lists(vec![nvidia, Vec::new(), amd]);
    let vendors: Vec<Vendor> = all.iter().map(|d| d.vendor).collect();
    assert_eq!(vendors, vec![Vendor::Nvidia, Vendor::Nvidia, Vendor::Amd]);
    let uuids: Vec<&str> = all.iter().map(|d| d.uuid.as_str()).collect();
    assert_eq!(uuids, vec!["GPU-a", "GPU-b", "amd-0"]);
}
