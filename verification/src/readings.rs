//! How each backend's cached readings change on a refresh.
//!
//! The caches hold the vendor's raw integer readings; conversion to the
//! floating-point metric values happens when a metric is read out.

use vstd::prelude::*;

use crate::amdsmi::{AmdsmiPowerInfo, AMDSMI_STATUS_SUCCESS};
use crate::levelzero::{
    activity_delta, energy_delta, sample_delta, ZesEngineStats, ZesPowerEnergyCounter,
};

verus! {

/// The new reading when there is one, else the cached value.
pub open spec fn newer<T>(cached: Option<T>, read: Option<T>) -> Option<T> {
    match read {
        Some(v) => Some(v),
        None => cached,
    }
}

/// The first component of an optional pair.
pub open spec fn first_of<A, B>(p: Option<(A, B)>) -> Option<A> {
    match p {
        Some(v) => Some(v.0),
        None => None,
    }
}

/// The second component of an optional pair.
pub open spec fn second_of<A, B>(p: Option<(A, B)>) -> Option<B> {
    match p {
        Some(v) => Some(v.1),
        None => None,
    }
}

/// One refresh's NVML readings of a device.
#[derive(Debug, Clone, Copy)]
pub struct NvidiaReadings {
    /// GPU and memory-controller utilization percent.
    pub utilization: Option<(u32, u32)>,
    /// Used and total memory bytes.
    pub memory: Option<(u64, u64)>,
    pub temperature_c: Option<u32>,
    pub power_usage_mw: Option<u32>,
    pub power_limit_mw: Option<u32>,
    pub fan_percent: Option<u32>,
    pub clock_graphics: Option<u32>,
    pub clock_memory: Option<u32>,
}

/// Cached NVML readings of a device.
#[derive(Debug, Clone, Copy)]
pub struct NvidiaCache {
    pub utilization: Option<u32>,
    pub memory_utilization: Option<u32>,
    pub memory_used: Option<u64>,
    pub memory_total: Option<u64>,
    pub temperature_c: Option<u32>,
    pub power_usage_mw: Option<u32>,
    pub power_limit_mw: Option<u32>,
    pub fan_percent: Option<u32>,
    pub clock_graphics: Option<u32>,
    pub clock_memory: Option<u32>,
}

impl NvidiaCache {
    /// A cache with no readings.
    pub fn new() -> (r: Self)
        ensures
            r.utilization is None && r.memory_utilization is None && r.memory_used is None
                && r.memory_total is None && r.temperature_c is None && r.power_usage_mw is None
                && r.power_limit_mw is None && r.fan_percent is None && r.clock_graphics is None
                && r.clock_memory is None,
    {
        NvidiaCache {
            utilization: None,
            memory_utilization: None,
            memory_used: None,
            memory_total: None,
            temperature_c: None,
            power_usage_mw: None,
            power_limit_mw: None,
            fan_percent: None,
            clock_graphics: None,
            clock_memory: None,
        }
    }
}

/// Applies one refresh: each reading replaces its cached value when it was
/// read and is kept otherwise, except the clocks, which always take the new
/// reading; a memory reading also updates the device's total.
pub fn refresh_nvidia(cache: &mut NvidiaCache, identity_total: &mut Option<u64>, r: &NvidiaReadings)
    ensures
        final(cache).utilization == newer(old(cache).utilization, first_of(r.utilization)),
        final(cache).memory_utilization == newer(old(cache).memory_utilization, second_of(r.utilization)),
        final(cache).memory_used == newer(old(cache).memory_used, first_of(r.memory)),
        final(cache).memory_total == newer(old(cache).memory_total, second_of(r.memory)),
        *final(identity_total) == newer(*old(identity_total), second_of(r.memory)),
        final(cache).temperature_c == newer(old(cache).temperature_c, r.temperature_c),
        final(cache).power_usage_mw == newer(old(cache).power_usage_mw, r.power_usage_mw),
        final(cache).power_limit_mw == newer(old(cache).power_limit_mw, r.power_limit_mw),
        final(cache).fan_percent == newer(old(cache).fan_percent, r.fan_percent),
        final(cache).clock_graphics == r.clock_graphics,
        final(cache).clock_memory == r.clock_memory,
{
    if let Some((gpu, mem)) = r.utilization {
        cache.utilization = Some(gpu);
        cache.memory_utilization = Some(mem);
    }
    if let Some((used, total)) = r.memory {
        cache.memory_used = Some(used);
        cache.memory_total = Some(total);
        *identity_total = Some(total);
    }
    if let Some(t) = r.temperature_c {
        cache.temperature_c = Some(t);
    }
    if let Some(mw) = r.power_usage_mw {
        cache.power_usage_mw = Some(mw);
    }
    if let Some(mw) = r.power_limit_mw {
        cache.power_limit_mw = Some(mw);
    }
    if let Some(f) = r.fan_percent {
        cache.fan_percent = Some(f);
    }
    cache.clock_graphics = r.clock_graphics;
    cache.clock_memory = r.clock_memory;
}

/// The memory total shown for a device: the cached reading, else the total
/// recorded with its identity.
pub fn shown_memory_total(cached: Option<u64>, identity_total: Option<u64>) -> (r: Option<u64>)
    ensures
        r == newer(identity_total, cached),
{
    match cached {
        Some(t) => Some(t),
        None => identity_total,
    }
}

/// A value that an AMD SMI call wrote, when the call succeeded.
pub fn amd_reading<T>(status: i32, value: T) -> (r: Option<T>)
    ensures
        r == if status == AMDSMI_STATUS_SUCCESS {
            Some(value)
        } else {
            None::<T>
        },
{
    if status == AMDSMI_STATUS_SUCCESS {
        Some(value)
    } else {
        None
    }
}

/// The socket power draw in watts, when the power info was read.
pub fn amd_power_draw_w(status: i32, info: &AmdsmiPowerInfo) -> (r: Option<u32>)
    ensures
        r == if status == AMDSMI_STATUS_SUCCESS {
            Some(info.current_socket_power)
        } else {
            None::<u32>
        },
{
    if status == AMDSMI_STATUS_SUCCESS {
        Some(info.current_socket_power)
    } else {
        None
    }
}

/// The power limit in watts, when the power info was read and a limit is set.
pub fn amd_power_limit_w(status: i32, info: &AmdsmiPowerInfo) -> (r: Option<u32>)
    ensures
        r == if status == AMDSMI_STATUS_SUCCESS && info.power_limit > 0 {
            Some(info.power_limit)
        } else {
            None::<u32>
        },
{
    if status == AMDSMI_STATUS_SUCCESS && info.power_limit > 0 {
        Some(info.power_limit)
    } else {
        None
    }
}

/// One refresh's AMD SMI readings of a device.
#[derive(Debug, Clone, Copy)]
pub struct AmdReadings {
    pub busy_percent: Option<u32>,
    pub memory_total: Option<u64>,
    pub memory_used: Option<u64>,
    pub temperature_c: Option<i64>,
    pub power_w: Option<u32>,
    pub power_limit_w: Option<u32>,
    pub fan_rpm: Option<i64>,
    pub clock_graphics: Option<u32>,
    pub clock_memory: Option<u32>,
}

/// Cached AMD SMI readings of a device.
#[derive(Debug, Clone, Copy)]
pub struct AmdCache {
    pub busy_percent: Option<u32>,
    pub memory_total: Option<u64>,
    pub memory_used: Option<u64>,
    /// Used and total bytes of the last refresh that read both with a non-zero
    /// total: the memory utilization is `100 * used / total`.
    pub memory_share: Option<(u64, u64)>,
    pub temperature_c: Option<i64>,
    pub power_w: Option<u32>,
    pub power_limit_w: Option<u32>,
    pub fan_rpm: Option<i64>,
    pub clock_graphics: Option<u32>,
    pub clock_memory: Option<u32>,
}

impl AmdCache {
    /// A cache with no readings.
    pub fn new() -> (r: Self)
        ensures
            r.busy_percent is None && r.memory_total is None && r.memory_used is None
                && r.memory_share is None && r.temperature_c is None && r.power_w is None
                && r.power_limit_w is None && r.fan_rpm is None && r.clock_graphics is None
                && r.clock_memory is None,
    {
        AmdCache {
            busy_percent: None,
            memory_total: None,
            memory_used: None,
            memory_share: None,
            temperature_c: None,
            power_w: None,
            power_limit_w: None,
            fan_rpm: None,
            clock_graphics: None,
            clock_memory: None,
        }
    }
}

/// Applies one refresh: every reading replaces its cached value (also when it
/// could not be read); the memory share and the device's total change only
/// when both memory figures were read (the share only with a non-zero total).
pub fn refresh_amd(cache: &mut AmdCache, identity_total: &mut Option<u64>, r: &AmdReadings)
    ensures
        final(cache).busy_percent == r.busy_percent,
        final(cache).memory_total == r.memory_total,
        final(cache).memory_used == r.memory_used,
        final(cache).memory_share == match (r.memory_total, r.memory_used) {
            (Some(t), Some(u)) => if t > 0 {
                Some((u, t))
            } else {
                old(cache).memory_share
            },
            _ => old(cache).memory_share,
        },
        *final(identity_total) == match (r.memory_total, r.memory_used) {
            (Some(t), Some(u)) => Some(t),
            _ => *old(identity_total),
        },
        final(cache).temperature_c == r.temperature_c,
        final(cache).power_w == r.power_w,
        final(cache).power_limit_w == r.power_limit_w,
        final(cache).fan_rpm == r.fan_rpm,
        final(cache).clock_graphics == r.clock_graphics,
        final(cache).clock_memory == r.clock_memory,
{
    cache.busy_percent = r.busy_percent;
    cache.memory_total = r.memory_total;
    cache.memory_used = r.memory_used;
    if let (Some(t), Some(u)) = (r.memory_total, r.memory_used) {
        *identity_total = Some(t);
        if t > 0 {
            cache.memory_share = Some((u, t));
        }
    }
    cache.temperature_c = r.temperature_c;
    cache.power_w = r.power_w;
    cache.power_limit_w = r.power_limit_w;
    cache.fan_rpm = r.fan_rpm;
    cache.clock_graphics = r.clock_graphics;
    cache.clock_memory = r.clock_memory;
}

/// The fan speed in RPM, when read successfully and not negative.
pub fn amd_fan_rpm(status: i32, rpm: i64) -> (r: Option<i64>)
    ensures
        r == if status == AMDSMI_STATUS_SUCCESS && rpm >= 0 {
            Some(rpm)
        } else {
            None::<i64>
        },
{
    if status == AMDSMI_STATUS_SUCCESS && rpm >= 0 {
        Some(rpm)
    } else {
        None
    }
}

/// One refresh's Sysman readings of a device.
#[derive(Debug, Clone, Copy)]
pub struct IntelSysmanReadings {
    /// Used and total memory bytes.
    pub memory: Option<(u64, u64)>,
    pub frequency_mhz: Option<u32>,
    pub fan_percent: Option<i32>,
    pub energy: Option<ZesPowerEnergyCounter>,
    pub engine: Option<ZesEngineStats>,
}

/// Cached Level Zero readings of a device.
#[derive(Debug, Clone, Copy)]
pub struct IntelCache {
    pub clock_graphics: Option<u32>,
    pub memory_used: Option<u64>,
    pub memory_total: Option<u64>,
    pub fan_percent: Option<i32>,
    pub clock_memory: Option<u32>,
    /// Energy (µJ) and time (µs) between the last two samples that were apart
    /// in time: the power draw in watts is their ratio.
    pub power: Option<(u64, u64)>,
    /// Active and elapsed time (µs) between the last two engine samples that
    /// were apart in time: the utilization is `100 * active / elapsed`.
    pub utilization: Option<(u64, u64)>,
    pub prev_energy: Option<ZesPowerEnergyCounter>,
    pub prev_engine: Option<ZesEngineStats>,
}

impl IntelCache {
    /// A cache with no readings.
    pub fn new() -> (r: Self)
        ensures
            r.clock_graphics is None && r.memory_used is None && r.memory_total is None
                && r.fan_percent is None && r.clock_memory is None && r.power is None
                && r.utilization is None && r.prev_energy is None && r.prev_engine is None,
    {
        IntelCache {
            clock_graphics: None,
            memory_used: None,
            memory_total: None,
            fan_percent: None,
            clock_memory: None,
            power: None,
            utilization: None,
            prev_energy: None,
            prev_engine: None,
        }
    }
}

/// The sample pair `(value, timestamp)` of an energy counter.
pub open spec fn energy_pair(c: ZesPowerEnergyCounter) -> (u64, u64) {
    (c.energy, c.timestamp)
}

/// The sample pair of an optional energy counter.
pub open spec fn energy_pair_of(c: Option<ZesPowerEnergyCounter>) -> Option<(u64, u64)> {
    match c {
        Some(v) => Some(energy_pair(v)),
        None => None,
    }
}

/// The sample pair `(value, timestamp)` of engine activity.
pub open spec fn engine_pair(c: ZesEngineStats) -> (u64, u64) {
    (c.active_time, c.timestamp)
}

/// The sample pair of optional engine activity.
pub open spec fn engine_pair_of(c: Option<ZesEngineStats>) -> Option<(u64, u64)> {
    match c {
        Some(v) => Some(engine_pair(v)),
        None => None,
    }
}

/// The rate inputs after a new sample: the delta to the previous sample when
/// time advanced, else the cached inputs.
pub open spec fn next_rate(
    cached: Option<(u64, u64)>,
    prev: Option<(u64, u64)>,
    cur: Option<(u64, u64)>,
) -> Option<(u64, u64)> {
    match (prev, cur) {
        (Some(p), Some(c)) => newer(cached, sample_delta(p, c)),
        _ => cached,
    }
}

/// Applies one refresh. A positive core clock rate sets the graphics clock;
/// without a Sysman handle (`sysman` is `None`) nothing else changes.
/// Otherwise memory is kept when unreadable, the Sysman frequency overrides
/// the graphics clock, the fan reading replaces the cached one, the memory
/// clock is cleared, and power and utilization come from the deltas to the
/// previous samples.
pub fn refresh_intel(
    cache: &mut IntelCache,
    identity_total: &mut Option<u64>,
    core_clock_rate: Option<u32>,
    sysman: Option<IntelSysmanReadings>,
)
    ensures
        ({
            let gfx = match core_clock_rate {
                Some(c) => if c > 0 {
                    Some(c)
                } else {
                    old(cache).clock_graphics
                },
                None => old(cache).clock_graphics,
            };
            match sysman {
                None => *final(cache) == IntelCache { clock_graphics: gfx, ..*old(cache) }
                    && *final(identity_total) == *old(identity_total),
                Some(s) => {
                    &&& final(cache).clock_graphics == newer(gfx, s.frequency_mhz)
                    &&& final(cache).memory_used == newer(old(cache).memory_used, first_of(s.memory))
                    &&& final(cache).memory_total == newer(old(cache).memory_total, second_of(s.memory))
                    &&& *final(identity_total) == newer(*old(identity_total), second_of(s.memory))
                    &&& final(cache).fan_percent == s.fan_percent
                    &&& final(cache).clock_memory is None
                    &&& final(cache).power == next_rate(
                        old(cache).power,
                        energy_pair_of(old(cache).prev_energy),
                        energy_pair_of(s.energy),
                    )
                    &&& final(cache).prev_energy == newer(old(cache).prev_energy, s.energy)
                    &&& final(cache).utilization == next_rate(
                        old(cache).utilization,
                        engine_pair_of(old(cache).prev_engine),
                        engine_pair_of(s.engine),
                    )
                    &&& final(cache).prev_engine == newer(old(cache).prev_engine, s.engine)
                },
            }
        }),
{
    if let Some(rate) = core_clock_rate {
        if rate > 0 {
            cache.clock_graphics = Some(rate);
        }
    }
    let s = match sysman {
        Some(s) => s,
        None => {
            return;
        },
    };
    if let Some((used, total)) = s.memory {
        cache.memory_used = Some(used);
        cache.memory_total = Some(total);
        *identity_total = Some(total);
    }
    if let Some(mhz) = s.frequency_mhz {
        cache.clock_graphics = Some(mhz);
    }
    cache.fan_percent = s.fan_percent;
    cache.clock_memory = None;
    if let Some(cur) = s.energy {
        if let Some(d) = energy_delta(cache.prev_energy, cur) {
            cache.power = Some(d);
        }
        cache.prev_energy = Some(cur);
    }
    if let Some(cur) = s.engine {
        if let Some(d) = activity_delta(cache.prev_engine, cur) {
            cache.utilization = Some(d);
        }
        cache.prev_engine = Some(cur);
    }
}

} // verus!
