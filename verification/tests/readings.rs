use plows_gpu::amdsmi::AmdsmiPowerInfo;
use plows_gpu::levelzero::{ZesEngineStats, ZesPowerEnergyCounter};
use plows_gpu::readings::{
    amd_fan_rpm, amd_power_draw_w, amd_power_limit_w, amd_reading, refresh_amd, refresh_intel,
    refresh_nvidia, shown_memory_total, AmdCache, AmdReadings, IntelCache, IntelSysmanReadings,
    NvidiaCache, NvidiaReadings,
};

fn power_info(current: u32, limit: u32) -> AmdsmiPowerInfo {
    AmdsmiPowerInfo {
        socket_power: 0,
        current_socket_power: current,
        average_socket_power: 0,
        gfx_voltage: 0,
        soc_voltage: 0,
        mem_voltage: 0,
        power_limit: limit,
        _pad: 0,
        reserved: [0; 18],
    }
}

fn nvidia_full() -> NvidiaReadings {
    NvidiaReadings {
        utilization: Some((37, 12)),
        memory: Some((2048, 8192)),
        temperature_c: Some(65),
        power_usage_mw: Some(150_500),
        power_limit_mw: Some(250_000),
        fan_percent: Some(40),
        clock_graphics: Some(1800),
        clock_memory: Some(7000),
    }
}

fn nvidia_empty() -> NvidiaReadings {
    NvidiaReadings {
        utilization: None,
        memory: None,
        temperature_c: None,
        power_usage_mw: None,
        power_limit_mw: None,
        fan_percent: None,
        clock_graphics: None,
        clock_memory: None,
    }
}

#[test]
fn nvidia_refresh_stores_readings() {
    let mut cache = NvidiaCache::new();
    let mut total = None;
    refresh_nvidia(&mut cache, &mut total, &nvidia_full());
    assert_eq!(cache.utilization, Some(37));
    assert_eq!(cache.memory_utilization, Some(12));
    assert_eq!(cache.memory_used, Some(2048));
    assert_eq!(cache.memory_total, Some(8192));
    assert_eq!(total, Some(8192));
    assert_eq!(cache.temperature_c, Some(65));
    assert_eq!(cache.power_usage_mw, Some(150_500));
    assert_eq!(cache.power_limit_mw, Some(250_000));
    assert_eq!(cache.fan_percent, Some(40));
    assert_eq!(cache.clock_graphics, Some(1800));
    assert_eq!(cache.clock_memory, Some(7000));
}

#[test]
fn nvidia_failed_reads_keep_cache_but_clear_clocks() {
    let mut cache = NvidiaCache::new();
    let mut total = None;
    refresh_nvidia(&mut cache, &mut total, &nvidia_full());
    refresh_nvidia(&mut cache, &mut total, &nvidia_empty());
    assert_eq!(cache.utilization, Some(37));
    assert_eq!(cache.memory_total, Some(8192));
    assert_eq!(total, Some(8192));
    assert_eq!(cache.temperature_c, Some(65));
    assert_eq!(cache.fan_percent, Some(40));
    assert_eq!(cache.clock_graphics, None);
    assert_eq!(cache.clock_memory, None);
}

#[test]
fn memory_total_falls_back_to_identity() {
    assert_eq!(shown_memory_total(Some(10), Some(20)), Some(10));
    assert_eq!(shown_memory_total(None, Some(20)), Some(20));
    assert_eq!(shown_memory_total(None, None), None);
}

#[test]
fn amd_status_gates_readings() {
    assert_eq!(amd_reading(0, 55u32), Some(55));
    assert_eq!(amd_reading(2, 55u32), None);
    assert_eq!(amd_power_draw_w(0, &power_info(120, 300)), Some(120));
    assert_eq!(amd_power_draw_w(1, &power_info(120, 300)), None);
    assert_eq!(amd_power_limit_w(0, &power_info(120, 300)), Some(300));
    assert_eq!(amd_power_limit_w(0, &power_info(120, 0)), None);
    assert_eq!(amd_power_limit_w(3, &power_info(120, 300)), None);
    assert_eq!(amd_fan_rpm(0, 1500), Some(1500));
    assert_eq!(amd_fan_rpm(0, -1), None);
    assert_eq!(amd_fan_rpm(1, 1500), None);
}

fn amd_read(total: Option<u64>, used: Option<u64>) -> AmdReadings {
    AmdReadings {
        busy_percent: Some(80),
        memory_total: total,
        memory_used: used,
        temperature_c: Some(70),
        power_w: Some(200),
        power_limit_w: Some(300),
        fan_rpm: Some(1200),
        clock_graphics: Some(2100),
        clock_memory: None,
    }
}

#[test]
fn amd_refresh_replaces_and_keeps_share() {
    let mut cache = AmdCache::new();
    let mut total = None;
    refresh_amd(&mut cache, &mut total, &amd_read(Some(1000), Some(250)));
    assert_eq!(cache.memory_share, Some((250, 1000)));
    assert_eq!(total, Some(1000));
    assert_eq!(cache.busy_percent, Some(80));
    assert_eq!(cache.fan_rpm, Some(1200));
    // A failed usage read clears the used figure but keeps the last share.
    refresh_amd(&mut cache, &mut total, &amd_read(Some(1000), None));
    assert_eq!(cache.memory_used, None);
    assert_eq!(cache.memory_share, Some((250, 1000)));
    // A zero total updates the device total but not the share.
    refresh_amd(&mut cache, &mut total, &amd_read(Some(0), Some(5)));
    assert_eq!(total, Some(0));
    assert_eq!(cache.memory_share, Some((250, 1000)));
}

fn sysman(energy: (u64, u64), engine: (u64, u64)) -> IntelSysmanReadings {
    IntelSysmanReadings {
        memory: Some((300, 4000)),
        frequency_mhz: Some(1550),
        fan_percent: Some(35),
        energy: Some(ZesPowerEnergyCounter { energy: energy.0, timestamp: energy.1 }),
        engine: Some(ZesEngineStats { active_time: engine.0, timestamp: engine.1 }),
    }
}

#[test]
fn intel_refresh_rates_from_deltas() {
    let mut cache = IntelCache::new();
    let mut total = None;
    refresh_intel(&mut cache, &mut total, Some(1200), Some(sysman((1_000, 10), (5, 10))));
    assert_eq!(cache.power, None);
    assert_eq!(cache.utilization, None);
    assert_eq!(cache.clock_graphics, Some(1550));
    assert_eq!(total, Some(4000));
    refresh_intel(&mut cache, &mut total, Some(1200), Some(sysman((31_000, 1_010), (505, 1_010))));
    assert_eq!(cache.power, Some((30_000, 1_000)));
    assert_eq!(cache.utilization, Some((500, 1_000)));
    // No time elapsed: the previous rates stay.
    refresh_intel(&mut cache, &mut total, Some(1200), Some(sysman((40_000, 1_010), (600, 1_010))));
    assert_eq!(cache.power, Some((30_000, 1_000)));
    assert_eq!(cache.utilization, Some((500, 1_000)));
    assert_eq!(cache.fan_percent, Some(35));
    assert_eq!(cache.clock_memory, None);
}

#[test]
fn intel_without_sysman_only_takes_core_clock() {
    let mut cache = IntelCache::new();
    let mut total = Some(77);
    refresh_intel(&mut cache, &mut total, Some(0), None);
    assert_eq!(cache.clock_graphics, None);
    refresh_intel(&mut cache, &mut total, Some(900), None);
    assert_eq!(cache.clock_graphics, Some(900));
    assert_eq!(cache.memory_total, None);
    assert_eq!(total, Some(77));
}
