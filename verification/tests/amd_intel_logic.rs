use plows_gpu::amd_ffi::{
    amd_smi_collect_device, amd_smi_control_clk_level, amd_smi_get_device_count,
    amd_smi_get_perf_level, amd_smi_init, amd_smi_set_perf_level, amd_smi_set_power_limit,
    amd_smi_shutdown, enumerate_gpus, AmdDeviceMetrics, AmdInitOutcome, AmdRawReadings, AmdSmiContext,
    AmdSocketScan,
};
use plows_gpu::amdsmi::{
    amd_identity, amd_perf_level, bdf_id, board_info, clock_mhz, device_uuid, perf_level_code,
    power_cap_microwatts, sensor_temperature, AmdsmiBoardInfo, AmdsmiFrequencies, AmdsmiPowerInfo,
};
use plows_gpu::error::GpuError;
use plows_gpu::levelzero::{
    activity_delta, energy_delta, format_pci_address, format_uuid, intel_identity,
    is_listed_device, memory_state, zes_string, CoreProperties, SysmanInfo, SysmanProperties,
    ZesEngineStats, ZesPciAddress, ZesPowerEnergyCounter,
};

fn freqs(num: u32, current: u32, table: &[u64]) -> AmdsmiFrequencies {
    let mut frequency = [0u64; 33];
    frequency[..table.len()].copy_from_slice(table);
    AmdsmiFrequencies { has_deep_sleep: 0, _pad0: [0; 3], num_supported: num, current, _pad1: 0, frequency }
}

fn fixed<const N: usize>(s: &[u8]) -> [u8; N] {
    let mut a = [0u8; N];
    a[..s.len()].copy_from_slice(s);
    a
}

#[test]
fn clock_levels() {
    assert_eq!(clock_mhz(0, &freqs(3, 1, &[500, 1_500_000_000, 2000])), Some(1500));
    assert_eq!(clock_mhz(0, &freqs(3, 2, &[500, 1000, 2000])), Some(2000));
    assert_eq!(clock_mhz(0, &freqs(2, 2, &[500, 1000])), None);
    assert_eq!(clock_mhz(0, &freqs(0, 0, &[])), None);
    assert_eq!(clock_mhz(1, &freqs(1, 0, &[500])), None);
}

#[test]
fn temperatures() {
    assert_eq!(sensor_temperature(0, 45), Some(45));
    assert_eq!(sensor_temperature(0, 45_000), Some(45));
    assert_eq!(sensor_temperature(0, 0), None);
    assert_eq!(sensor_temperature(2, 45), None);
}

#[test]
fn bdf_text() {
    let bdf: u64 = (0x1 << 32) | (0x3 << 8) | (0x2 << 3) | 0x1;
    assert_eq!(bdf_id(0, bdf).as_deref(), Some("0001:03:02.1"));
    assert_eq!(bdf_id(1, bdf), None);
}

#[test]
fn board_and_uuid() {
    let info = AmdsmiBoardInfo {
        model_number: [0; 256],
        product_serial: fixed::<256>(b"SN1"),
        fru_id: [0; 256],
        product_name: [0; 256],
        manufacturer_name: [0; 256],
        reserved: [0; 64],
    };
    let (model, serial) = board_info(0, &info).unwrap();
    assert_eq!(model, "AMD GPU");
    assert_eq!(serial.as_deref(), Some("SN1"));
    assert!(board_info(4, &info).is_none());
    assert_eq!(device_uuid(0, b"abc\0"), "abc");
    assert_eq!(device_uuid(1, b"abc\0"), "");
}

#[test]
fn perf_levels() {
    assert_eq!(perf_level_code("AUTO"), Some(0));
    assert_eq!(perf_level_code("manual"), Some(3));
    assert_eq!(perf_level_code("turbo"), None);
    match amd_perf_level("TurBo") {
        Err(GpuError::Unsupported(m)) => assert_eq!(m, "unknown AMD perf level `turbo`"),
        _ => panic!("expected unsupported"),
    }
    assert_eq!(amd_perf_level("High").unwrap(), 2);
}

#[test]
fn power_cap_units() {
    assert_eq!(power_cap_microwatts(250_000), 250_000_000);
    assert_eq!(power_cap_microwatts(u64::MAX), u64::MAX);
}

#[test]
fn amd_identity_fallbacks() {
    let d = amd_identity(1, None, String::new(), None, Some(5));
    assert_eq!(d.model, "AMD GPU");
    assert_eq!(d.uuid, "amd-gpu-1");
    assert_eq!(d.serial, None);
    assert_eq!(d.memory_total, Some(5));
    let d = amd_identity(0, Some(("MI300".into(), Some("S".into()))), "u".into(), Some("p".into()), None);
    assert_eq!(d.model, "MI300");
    assert_eq!(d.uuid, "u");
    assert_eq!(d.pci_bus_id, "p");
}

fn readings() -> AmdRawReadings {
    AmdRawReadings {
        uuid_status: 0,
        uuid: b"uuid-1\0".to_vec(),
        board_status: 0,
        product_name: b"MI250\0".to_vec(),
        busy_status: 0,
        busy_percent: 40,
        total_status: 0,
        total_bytes: 1000,
        used_status: 0,
        used_bytes: 250,
        memory_percent_of_total: 25,
        power_status: 0,
        power: AmdsmiPowerInfo {
            socket_power: 0,
            current_socket_power: 300,
            average_socket_power: 0,
            gfx_voltage: 0,
            soc_voltage: 0,
            mem_voltage: 0,
            power_limit: 500,
            _pad: 0,
            reserved: [0; 18],
        },
        sys_clock_status: 0,
        sys_clock: freqs(1, 0, &[1700]),
        df_clock_status: 1,
        df_clock: freqs(1, 0, &[1600]),
        temperature: Some(55),
        fan_status: 0,
        fan_rpm: 1200,
    }
}

#[test]
fn amd_metrics_from_readings() {
    let m = amd_smi_collect_device(Some(readings()));
    assert_eq!(m.uuid, "uuid-1");
    assert_eq!(m.brand, "MI250");
    assert_eq!(m.gpu_utilization_percent, 40);
    assert_eq!(m.memory_utilization_percent, 25);
    assert_eq!(m.power_usage_mw, 300_000);
    assert_eq!(m.power_limit_mw, 500_000);
    assert_eq!(m.clock_core_mhz, 1700);
    assert_eq!(m.clock_memory_mhz, 0);
    assert_eq!(m.temperature_celsius, 55);
    assert_eq!(m.fan_speed_rpm, 1200);

    let mut r = readings();
    r.total_status = 1;
    r.uuid_status = 1;
    r.board_status = 1;
    r.temperature = None;
    let m = amd_smi_collect_device(Some(r));
    assert_eq!(m.memory_utilization_percent, -1);
    assert_eq!(m.uuid, "UNKNOWN");
    assert_eq!(m.brand, "AMD GPU");
    assert_eq!(m.temperature_celsius, -999);

    let m = amd_smi_collect_device(None);
    assert_eq!(m.uuid, "INVALID_HANDLE");
    assert_eq!(m.brand, "Unknown");
    assert_eq!(m.gpu_utilization_percent, -1);

    let d = AmdDeviceMetrics::default();
    assert_eq!(d.temperature_celsius, -999);
}

fn scan(count_status: i32, socket_count: u32, list_status: i32, processors: Vec<(u8, i32, u32)>) -> AmdSocketScan<u8> {
    AmdSocketScan { count_status, socket_count, list_status, processors }
}

fn answered(status: i32, s: AmdSocketScan<u8>) -> AmdInitOutcome<u8> {
    AmdInitOutcome::Answered { status, scan: s }
}

#[test]
fn amd_session_lifecycle() {
    let mut ctx: AmdSmiContext<u8> = AmdSmiContext::new();
    assert_eq!(amd_smi_get_device_count(&ctx), 0);
    assert_eq!(amd_smi_set_perf_level(&ctx, 0, "auto"), None);
    assert_eq!(amd_smi_init(&mut ctx, answered(7, scan(0, 0, 0, vec![]))), 7);
    assert!(!ctx.is_initialized());
    let found = scan(0, 1, 0, vec![(10, 0, 1), (99, 0, 2), (11, 0, 1), (12, 3, 1)]);
    assert_eq!(amd_smi_init(&mut ctx, answered(0, found)), 0);
    assert!(ctx.is_initialized());
    assert_eq!(amd_smi_get_device_count(&ctx), 2);
    assert_eq!(amd_smi_init(&mut ctx, AmdInitOutcome::OpenFailed), 0);
    assert_eq!(amd_smi_get_device_count(&ctx), 2);
    assert_eq!(amd_smi_set_perf_level(&ctx, 1, "HIGH"), Some((11, 2)));
    assert_eq!(amd_smi_set_perf_level(&ctx, 1, "fast"), None);
    assert_eq!(amd_smi_set_perf_level(&ctx, 2, "low"), None);
    assert_eq!(amd_smi_set_power_limit(&ctx, 0, 300_000), Some((10, 300_000_000)));
    assert_eq!(amd_smi_get_perf_level(Some((0, 3))), 3);
    assert_eq!(amd_smi_get_perf_level(Some((1, 3))), -1);
    assert_eq!(amd_smi_get_perf_level(None), -1);
    assert_eq!(amd_smi_control_clk_level("u", 1, 5), -1);
    assert!(amd_smi_shutdown(&mut ctx));
    assert_eq!(amd_smi_get_device_count(&ctx), 0);
    assert_eq!(ctx.handle(0), None);
    assert!(!amd_smi_shutdown(&mut ctx));
    let mut ctx2: AmdSmiContext<u8> = AmdSmiContext::new();
    // No processor is an AMD GPU: no session, -1.
    assert_eq!(amd_smi_init(&mut ctx2, answered(0, scan(0, 1, 0, vec![(5, 0, 2)]))), -1);
    assert!(!ctx2.is_initialized());
    assert_eq!(amd_smi_init(&mut ctx2, AmdInitOutcome::OpenFailed), -1);
    assert_eq!(amd_smi_get_device_count(&ctx2), 0);
}

#[test]
fn amd_gpu_enumeration_codes() {
    assert_eq!(enumerate_gpus(&scan(8, 0, 0, vec![])), Err(8));
    assert_eq!(enumerate_gpus(&scan(0, 0, 0, vec![])), Err(-1));
    assert_eq!(enumerate_gpus(&scan(0, 2, 4, vec![(1, 0, 1)])), Err(4));
    assert_eq!(enumerate_gpus(&scan(0, 2, 0, vec![])), Err(-1));
    assert_eq!(enumerate_gpus(&scan(0, 2, 0, vec![(1, 0, 1), (2, 1, 1), (3, 0, 1)])), Ok(vec![1, 3]));
}

#[test]
fn uuid_formatting() {
    let u = [0x12, 0x34, 0x56, 0x78, 0x9a, 0xbc, 0xde, 0xf0, 0x01, 0x02, 0x03, 0x04, 0x05, 0x06, 0x07, 0x08];
    let s = format_uuid(&u);
    assert_eq!(s, "12345678-9abc-def0-0102-030405060708");
    assert_eq!(s.len(), 36);
    assert_eq!(format_uuid(&[0; 16]), "00000000-0000-0000-0000-000000000000");
}

#[test]
fn sysman_strings() {
    assert_eq!(zes_string(b"Arc A770\0"), Some("Arc A770".to_string()));
    assert_eq!(zes_string(b"UNKNOWN\0"), None);
    assert_eq!(zes_string(b"unknown"), None);
    assert_eq!(zes_string(b"\0"), None);
}

#[test]
fn pci_addresses() {
    let a = ZesPciAddress { domain: 0, bus: 3, device: 0, function: 0 };
    assert_eq!(format_pci_address(a), "0000:03:00.0");
    let a = ZesPciAddress { domain: 0x12345, bus: 0xab, device: 0x1f, function: 0xc };
    assert_eq!(format_pci_address(a), "12345:ab:1f.c");
}

#[test]
fn memory_module_totals() {
    assert_eq!(memory_state(&[Some((100, 400)), None, Some((50, 100))]), Some((350, 500)));
    assert_eq!(memory_state(&[None]), None);
    assert_eq!(memory_state(&[]), None);
    assert_eq!(memory_state(&[Some((u64::MAX, u64::MAX)), Some((1, 1))]), Some((0, u64::MAX)));
}

#[test]
fn listed_devices() {
    assert!(is_listed_device(0, 1, b"\0"));
    assert!(is_listed_device(0, 2, b"iGPU\0"));
    assert!(!is_listed_device(0, 2, b"\0"));
    assert!(!is_listed_device(5, 1, b"iGPU\0"));
}

#[test]
fn sample_deltas() {
    let p = ZesPowerEnergyCounter { energy: 1_000, timestamp: 10 };
    let c = ZesPowerEnergyCounter { energy: 3_000, timestamp: 20 };
    assert_eq!(energy_delta(Some(p), c), Some((2_000, 10)));
    assert_eq!(energy_delta(None, c), None);
    assert_eq!(energy_delta(Some(c), c), None);
    let p = ZesEngineStats { active_time: 50, timestamp: 100 };
    let c = ZesEngineStats { active_time: 40, timestamp: 200 };
    assert_eq!(activity_delta(Some(p), c), Some((0, 100)));
}

#[test]
fn intel_identity_sources() {
    let d = intel_identity(0, None, None);
    assert_eq!(d.model, "Intel GPU 0");
    assert_eq!(d.uuid, "intel-gpu-0");
    assert_eq!(d.memory_total, None);

    let core = CoreProperties { name: b"\0".to_vec(), uuid: [1; 16], max_mem_alloc_size: 4096 };
    let d = intel_identity(1, Some(core), None);
    assert_eq!(d.model, "Intel GPU 1");
    assert_eq!(d.uuid, "01010101-0101-0101-0101-010101010101");
    assert_eq!(d.memory_total, Some(4096));

    let core = CoreProperties { name: b"Xe\0".to_vec(), uuid: [0; 16], max_mem_alloc_size: 0 };
    let sysman = SysmanInfo {
        properties: Some(SysmanProperties {
            model_name: b"unknown\0".to_vec(),
            brand_name: b"Arc\0".to_vec(),
            serial_number: b"Unknown\0".to_vec(),
        }),
        pci_bus_id: Some("0000:03:00.0".into()),
    };
    let d = intel_identity(2, Some(core), Some(sysman));
    assert_eq!(d.model, "Arc");
    assert_eq!(d.serial, None);
    assert_eq!(d.pci_bus_id, "0000:03:00.0");
    assert_eq!(d.memory_total, None);
}
