use plows_gpu::nvidia::{collect_processes, nvidia_identity, slot_at};
use plows_gpu::nvml::{
    cuda_version_string, finish_clock_list, max_clocks, merge_process_records, nvml_arch_name,
    nvml_serial, nvml_string, running_processes, NvmlProcessInfo, ProcessKind, ProcessQuery,
};
use plows_gpu::error::GpuError;

fn info(pid: u32, mem: u64) -> NvmlProcessInfo {
    NvmlProcessInfo { pid, used_gpu_memory: mem, gpu_instance_id: 0, compute_instance_id: 0 }
}

#[test]
fn architecture_names() {
    assert_eq!(nvml_arch_name(2), "Kepler");
    assert_eq!(nvml_arch_name(7), "Ampere");
    assert_eq!(nvml_arch_name(10), "Blackwell");
    assert_eq!(nvml_arch_name(0), "NVIDIA");
    assert_eq!(nvml_arch_name(99), "NVIDIA");
}

#[test]
fn cuda_version_text() {
    assert_eq!(cuda_version_string(0, 12040).as_deref(), Some("12.4"));
    assert_eq!(cuda_version_string(0, 11080).as_deref(), Some("11.8"));
    assert_eq!(cuda_version_string(0, 0), None);
    assert_eq!(cuda_version_string(3, 12040), None);
}

#[test]
fn device_strings() {
    assert_eq!(nvml_string(0, b"GPU-1\0\0").as_deref(), Some("GPU-1"));
    assert_eq!(nvml_string(1, b"GPU-1\0"), None);
    assert_eq!(nvml_serial(0, b"\0\0"), None);
    assert_eq!(nvml_serial(0, b"1320\0").as_deref(), Some("1320"));
}

#[test]
fn max_clock_pairs() {
    assert_eq!(max_clocks(0, 1980, 5, 0), Some((1980, 0)));
    assert_eq!(max_clocks(5, 0, 5, 0), None);
}

#[test]
fn clock_list_finishing() {
    assert_eq!(finish_clock_list(0, vec![9501, 5001, 810], 2, "x").unwrap(), vec![9501, 5001]);
    assert_eq!(finish_clock_list(2, vec![1, 2], 5, "x").unwrap(), vec![1, 2]);
    match finish_clock_list(3, vec![1], 1, "supported memory clocks") {
        Err(GpuError::DeviceQueryFailed(m)) => assert_eq!(m, "supported memory clocks returned 3"),
        _ => panic!("expected a query failure"),
    }
}

#[test]
fn process_records_merge_by_pid() {
    let mut out = Vec::new();
    merge_process_records(&mut out, &[info(10, 100), info(0, 5), info(11, u64::MAX)], ProcessKind::Compute);
    assert_eq!(out, vec![(10, 100, ProcessKind::Compute), (11, 0, ProcessKind::Compute)]);
    merge_process_records(&mut out, &[info(10, 50), info(12, 7)], ProcessKind::Graphics);
    assert_eq!(
        out,
        vec![
            (10, 100, ProcessKind::ComputeGraphics),
            (11, 0, ProcessKind::Compute),
            (12, 7, ProcessKind::Graphics),
        ]
    );
}

#[test]
fn running_processes_respect_status_and_count() {
    let compute = ProcessQuery { status: 0, count: 1, records: vec![info(1, 10), info(2, 20)] };
    let graphics = ProcessQuery { status: 2, count: 2, records: vec![info(1, 30), info(3, 5)] };
    let r = running_processes(Some(compute), Some(graphics));
    assert_eq!(r, vec![(1, 30, ProcessKind::ComputeGraphics), (3, 5, ProcessKind::Graphics)]);
    let rejected = ProcessQuery { status: 7, count: 1, records: vec![info(9, 1)] };
    assert!(running_processes(Some(rejected), None).is_empty());
    assert_eq!(ProcessKind::ComputeGraphics.as_str(), "C+G");
}

#[test]
fn processes_across_devices() {
    let devices = vec![
        vec![(10, 100, ProcessKind::Compute)],
        vec![(10, 200, ProcessKind::Graphics), (11, 1, ProcessKind::ComputeGraphics)],
    ];
    let all = collect_processes(&devices);
    assert_eq!(all.len(), 3);
    assert_eq!((all[0].pid, all[0].gpu_index, all[0].gpu_memory_bytes), (10, 0, 100));
    assert_eq!(all[0].process_type, "C");
    assert_eq!((all[1].pid, all[1].gpu_index, all[1].gpu_memory_bytes), (10, 1, 200));
    assert_eq!(all[1].process_type, "G");
    assert_eq!(all[2].process_type, "C+G");
}

#[test]
fn same_pid_twice_on_a_device_is_merged() {
    let devices = vec![vec![(5, 1, ProcessKind::Compute), (5, 9, ProcessKind::Compute)]];
    let all = collect_processes(&devices);
    assert_eq!(all.len(), 1);
    assert_eq!(all[0].gpu_memory_bytes, 9);
    assert_eq!(all[0].process_type, "C+G");
}

#[test]
fn nvidia_identity_fallbacks() {
    let d = nvidia_identity(2, None, None, None, None, None, None);
    assert_eq!(d.model, "NVIDIA GPU 2");
    assert_eq!(d.uuid, "nvidia-gpu-2");
    assert_eq!(d.pci_bus_id, "");
    assert_eq!(d.architecture, "");
    let d = nvidia_identity(
        0,
        Some("A100".into()),
        Some("GPU-x".into()),
        Some("00000000:01:00.0".into()),
        Some("1320".into()),
        Some("Ampere".into()),
        Some(8),
    );
    assert_eq!(d.model, "A100");
    assert_eq!(d.uuid, "GPU-x");
    assert_eq!(d.pci_bus_id, "00000000:01:00.0");
    assert_eq!(d.serial.as_deref(), Some("1320"));
    assert_eq!(d.architecture, "Ampere");
    assert_eq!(d.memory_total, Some(8));
}

#[test]
fn slot_lookup() {
    assert_eq!(slot_at(&[7u8, 8], 1, "GPU ").unwrap(), 8);
    match slot_at(&[7u8], 4, "AMD GPU ") {
        Err(GpuError::DeviceQueryFailed(m)) => assert_eq!(m, "AMD GPU 4 not found"),
        _ => panic!("expected not found"),
    }
}
