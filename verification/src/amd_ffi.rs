//! The AMD SMI session used by the exporter and control tools: a context of
//! enumerated GPU handles, and the metrics snapshot built from raw readings.
//!
//! The session context is passed explicitly; the handle type `H` is whatever
//! the caller uses to address a processor.

use vstd::prelude::*;

use crate::amdsmi::{
    clock_mhz, level_valid, perf_code, perf_level_code, power_cap_microwatts, raw_to_mhz,
    AmdsmiFrequencies, AmdsmiPowerInfo, AMDSMI_STATUS_SUCCESS,
};
use crate::dynlib::c_string_from_buf;
use crate::nvml::buf_text;
use crate::text::lower_text;

verus! {

/// Metrics snapshot for a single AMD GPU.
#[derive(Debug, Clone)]
pub struct AmdDeviceMetrics {
    pub uuid: String,
    pub brand: String,
    pub gpu_utilization_percent: i64,
    pub memory_utilization_percent: i64,
    pub memory_total_bytes: u64,
    pub memory_used_bytes: u64,
    pub power_usage_mw: u64,
    pub power_limit_mw: u64,
    pub clock_core_mhz: u32,
    pub clock_memory_mhz: u32,
    pub temperature_celsius: i64,
    pub fan_speed_rpm: u32,
}

impl Default for AmdDeviceMetrics {
    fn default() -> (r: Self)
        ensures
            r.uuid@ == Seq::<char>::empty(),
            r.brand@ == Seq::<char>::empty(),
            r.gpu_utilization_percent == -1,
            r.memory_utilization_percent == -1,
            r.memory_total_bytes == 0,
            r.memory_used_bytes == 0,
            r.power_usage_mw == 0,
            r.power_limit_mw == 0,
            r.clock_core_mhz == 0,
            r.clock_memory_mhz == 0,
            r.temperature_celsius == -999,
            r.fan_speed_rpm == 0,
    {
        AmdDeviceMetrics {
            uuid: String::new(),
            brand: String::new(),
            gpu_utilization_percent: -1,
            memory_utilization_percent: -1,
            memory_total_bytes: 0,
            memory_used_bytes: 0,
            power_usage_mw: 0,
            power_limit_mw: 0,
            clock_core_mhz: 0,
            clock_memory_mhz: 0,
            temperature_celsius: -999,
            fan_speed_rpm: 0,
        }
    }
}

/// The AMD SMI session: the GPU processor handles found when it was opened.
///
/// A session is open exactly while it holds at least one GPU: opening one
/// with no GPU fails, and closing one drops every handle.
pub struct AmdSmiContext<H> {
    handles: Vec<H>,
}

impl<H> AmdSmiContext<H> {
    /// The GPU processor handles of the session, in enumeration order (none
    /// while no session is open).
    pub closed spec fn gpus(self) -> Seq<H> {
        self.handles@
    }

    /// Whether a driver session is open.
    pub open spec fn is_open(self) -> bool {
        self.gpus().len() > 0
    }
}

impl<H: Copy> AmdSmiContext<H> {
    /// A context with no session.
    pub fn new() -> (r: Self)
        ensures
            r.gpus() == Seq::<H>::empty(),
            !r.is_open(),
    {
        AmdSmiContext { handles: Vec::new() }
    }

    /// Whether a driver session is open.
    pub fn is_initialized(&self) -> (r: bool)
        ensures
            r == self.is_open(),
    {
        self.handles.len() > 0
    }

    /// The handle of GPU `device_index` while a session is open.
    pub fn handle(&self, device_index: u32) -> (r: Option<H>)
        ensures
            r is Some <==> self.is_open() && (device_index as int) < self.gpus().len(),
            r matches Some(h) ==> h == self.gpus()[device_index as int],
    {
        let i: usize = device_index as usize;
        if i < self.handles.len() {
            Some(self.handles[i])
        } else {
            None
        }
    }
}

/// Processor type code of an AMD GPU.
pub const AMDSMI_PROCESSOR_TYPE_AMD_GPU: u32 = 1;

/// What AMD SMI answered while its sockets were enumerated.
pub struct AmdSocketScan<H> {
    /// Status and result of counting the sockets.
    pub count_status: i32,
    pub socket_count: u32,
    /// Status of listing the sockets (looked at only when counting succeeded
    /// and found a socket).
    pub list_status: i32,
    /// Every processor listed on the sockets, with the status and the result
    /// of asking its type.
    pub processors: Vec<(H, i32, u32)>,
}

/// Whether a processor's type query says it is an AMD GPU.
pub open spec fn is_gpu_processor<H>(p: (H, i32, u32)) -> bool {
    p.1 == AMDSMI_STATUS_SUCCESS && p.2 == AMDSMI_PROCESSOR_TYPE_AMD_GPU
}

/// The handles of the processors that are AMD GPUs, in order.
pub open spec fn gpu_handles<H>(procs: Seq<(H, i32, u32)>) -> Seq<H>
    decreases procs.len(),
{
    if procs.len() == 0 {
        Seq::empty()
    } else {
        let prev = gpu_handles(procs.drop_last());
        if is_gpu_processor(procs.last()) {
            prev.push(procs.last().0)
        } else {
            prev
        }
    }
}

/// The GPUs a socket scan found, or the code reported when it found none: the
/// failing status of counting (-1 when no socket was found), the failing status
/// of listing, or -1 when no processor is an AMD GPU.
pub open spec fn enumeration<H>(scan: AmdSocketScan<H>) -> Result<Seq<H>, i32> {
    if scan.count_status != AMDSMI_STATUS_SUCCESS || scan.socket_count == 0 {
        Err(if scan.count_status != AMDSMI_STATUS_SUCCESS {
            scan.count_status
        } else {
            -1i32
        })
    } else if scan.list_status != AMDSMI_STATUS_SUCCESS {
        Err(scan.list_status)
    } else if gpu_handles(scan.processors@).len() == 0 {
        Err(-1i32)
    } else {
        Ok(gpu_handles(scan.processors@))
    }
}

/// The AMD GPUs a socket scan found: at least one, or a non-zero code.
pub fn enumerate_gpus<H: Copy>(scan: &AmdSocketScan<H>) -> (r: Result<Vec<H>, i32>)
    ensures
        match (r, enumeration(*scan)) {
            (Ok(hs), Ok(s)) => hs@ == s,
            (Err(c), Err(d)) => c == d,
            _ => false,
        },
        r matches Ok(hs) ==> hs@.len() > 0,
        r matches Err(c) ==> c != 0,
{
    if scan.count_status != AMDSMI_STATUS_SUCCESS || scan.socket_count == 0 {
        return Err(
            if scan.count_status != AMDSMI_STATUS_SUCCESS {
                scan.count_status
            } else {
                -1
            },
        );
    }
    if scan.list_status != AMDSMI_STATUS_SUCCESS {
        return Err(scan.list_status);
    }
    let procs = &scan.processors;
    let mut handles: Vec<H> = Vec::new();
    let mut i: usize = 0;
    while i < procs.len()
        invariant
            i <= procs@.len(),
            handles@ == gpu_handles(procs@.take(i as int)),
        decreases procs@.len() - i,
    {
        let p = procs[i];
        assert(procs@.take(i as int + 1).drop_last() =~= procs@.take(i as int));
        if p.1 == AMDSMI_STATUS_SUCCESS && p.2 == AMDSMI_PROCESSOR_TYPE_AMD_GPU {
            handles.push(p.0);
        }
        i = i + 1;
    }
    assert(procs@.take(procs@.len() as int) =~= procs@);
    if handles.len() == 0 {
        Err(-1)
    } else {
        Ok(handles)
    }
}

/// How an attempt to open a session went.
pub enum AmdInitOutcome<H> {
    /// The library could not be opened.
    OpenFailed,
    /// `amdsmi_init` answered with `status`; when that is success, the sockets
    /// were then enumerated with the answers in `scan`.
    Answered { status: i32, scan: AmdSocketScan<H> },
}

/// The session's GPUs after an initialization attempt, and the status it
/// returns: an open session is kept (status 0); otherwise the outcome decides.
pub open spec fn init_transition<H>(gpus: Seq<H>, outcome: AmdInitOutcome<H>) -> (Seq<H>, i32) {
    if gpus.len() > 0 {
        (gpus, 0i32)
    } else {
        match outcome {
            AmdInitOutcome::OpenFailed => (gpus, -1i32),
            AmdInitOutcome::Answered { status, scan } => if status != AMDSMI_STATUS_SUCCESS {
                (gpus, status)
            } else {
                match enumeration(scan) {
                    Ok(hs) => (hs, 0i32),
                    Err(code) => (gpus, code),
                }
            },
        }
    }
}

/// Records an initialization attempt and returns its status code: 0 when a
/// session is (or already was) open, -1 when the library could not be opened,
/// the status of `amdsmi_init` when it failed, else the enumeration's code.
/// It returns 0 exactly when a session with at least one GPU is open after it.
pub fn amd_smi_init<H: Copy>(ctx: &mut AmdSmiContext<H>, outcome: AmdInitOutcome<H>) -> (r: i32)
    ensures
        (final(ctx).gpus(), r) == init_transition(old(ctx).gpus(), outcome),
        r == 0 <==> final(ctx).is_open(),
        old(ctx).is_open() ==> final(ctx).gpus() == old(ctx).gpus(),
{
    if ctx.handles.len() > 0 {
        return 0;
    }
    match outcome {
        AmdInitOutcome::OpenFailed => -1,
        AmdInitOutcome::Answered { status, scan } => {
            if status != AMDSMI_STATUS_SUCCESS {
                return status;
            }
            match enumerate_gpus(&scan) {
                Ok(hs) => {
                    ctx.handles = hs;
                    0
                },
                Err(code) => code,
            }
        },
    }
}

/// Closes the session, dropping every handle; returns whether a driver
/// session was open (and must be shut down).
pub fn amd_smi_shutdown<H: Copy>(ctx: &mut AmdSmiContext<H>) -> (r: bool)
    ensures
        r == old(ctx).is_open(),
        final(ctx).gpus() == Seq::<H>::empty(),
        !final(ctx).is_open(),
{
    let was_open = ctx.handles.len() > 0;
    ctx.handles.clear();
    assert(ctx.handles@ =~= Seq::<H>::empty());
    was_open
}

/// Law: a socket scan either finds at least one GPU or reports a non-zero
/// code, so initialization returns 0 exactly when it leaves a session with at
/// least one GPU; an open session is kept by a further initialization, which
/// returns 0 whatever it would have found.
pub proof fn law_session<H>(gpus: Seq<H>, outcome: AmdInitOutcome<H>)
    ensures
        (init_transition(gpus, outcome).1 == 0) <==> init_transition(gpus, outcome).0.len() > 0,
        gpus.len() > 0 ==> init_transition(gpus, outcome) == (gpus, 0i32),
        gpus.len() == 0 && init_transition(gpus, outcome).1 != 0 ==> init_transition(
            gpus,
            outcome,
        ).0.len() == 0,
{
}

/// Number of GPUs in the session: 0 exactly when no session is open.
pub fn amd_smi_get_device_count<H: Copy>(ctx: &AmdSmiContext<H>) -> (r: u32)
    ensures
        r == ctx.gpus().len() as u32,
        ctx.gpus().len() <= u32::MAX ==> (r > 0 <==> ctx.is_open()),
{
    ctx.handles.len() as u32
}

/// Raw readings of one GPU, each with the status of its query.
pub struct AmdRawReadings {
    pub uuid_status: i32,
    pub uuid: Vec<u8>,
    pub board_status: i32,
    pub product_name: Vec<u8>,
    pub busy_status: i32,
    pub busy_percent: u32,
    pub total_status: i32,
    pub total_bytes: u64,
    pub used_status: i32,
    pub used_bytes: u64,
    /// `(100.0 * used) / total` truncated to an integer, as computed in
    /// floating point by the caller; used only when the total is non-zero.
    pub memory_percent_of_total: i64,
    pub power_status: i32,
    pub power: AmdsmiPowerInfo,
    pub sys_clock_status: i32,
    pub sys_clock: AmdsmiFrequencies,
    pub df_clock_status: i32,
    pub df_clock: AmdsmiFrequencies,
    /// The first usable temperature sensor reading in °C, if any.
    pub temperature: Option<i64>,
    pub fan_status: i32,
    pub fan_rpm: i64,
}

/// The clock in MHz, or 0 when it could not be read.
pub open spec fn clock_or_zero(status: i32, f: AmdsmiFrequencies) -> u32 {
    if status == AMDSMI_STATUS_SUCCESS && level_valid(f) {
        raw_to_mhz(f.frequency@[f.current as int])
    } else {
        0
    }
}

/// The frequency tables can be indexed at their current level.
pub open spec fn clocks_indexable(r: AmdRawReadings) -> bool {
    &&& r.sys_clock_status == AMDSMI_STATUS_SUCCESS && level_valid(r.sys_clock)
        ==> r.sys_clock.current < 33
    &&& r.df_clock_status == AMDSMI_STATUS_SUCCESS && level_valid(r.df_clock)
        ==> r.df_clock.current < 33
}

/// The metrics of one GPU. Without readings (no session or no such GPU) the
/// UUID is `INVALID_HANDLE` and the brand `Unknown`; otherwise every value
/// that could not be read keeps its fallback.
pub fn amd_smi_collect_device(readings: Option<AmdRawReadings>) -> (r: AmdDeviceMetrics)
    requires
        readings matches Some(x) ==> clocks_indexable(x),
    ensures
        match readings {
            None => {
                &&& r.uuid@ == "INVALID_HANDLE"@
                &&& r.brand@ == "Unknown"@
                &&& r.gpu_utilization_percent == -1
                &&& r.memory_utilization_percent == -1
                &&& r.memory_total_bytes == 0 && r.memory_used_bytes == 0
                &&& r.power_usage_mw == 0 && r.power_limit_mw == 0
                &&& r.clock_core_mhz == 0 && r.clock_memory_mhz == 0
                &&& r.temperature_celsius == -999
                &&& r.fan_speed_rpm == 0
            },
            Some(x) => {
                &&& r.uuid@ == if x.uuid_status == AMDSMI_STATUS_SUCCESS {
                    buf_text(x.uuid@)
                } else {
                    "UNKNOWN"@
                }
                &&& r.brand@ == if x.board_status == AMDSMI_STATUS_SUCCESS && buf_text(
                    x.product_name@,
                ).len() > 0 {
                    buf_text(x.product_name@)
                } else {
                    "AMD GPU"@
                }
                &&& r.gpu_utilization_percent == if x.busy_status == AMDSMI_STATUS_SUCCESS {
                    x.busy_percent as i64
                } else {
                    -1i64
                }
                &&& r.memory_total_bytes == if x.total_status == AMDSMI_STATUS_SUCCESS {
                    x.total_bytes
                } else {
                    0
                }
                &&& r.memory_used_bytes == if x.used_status == AMDSMI_STATUS_SUCCESS {
                    x.used_bytes
                } else {
                    0
                }
                &&& r.memory_utilization_percent == if r.memory_total_bytes == 0 {
                    -1i64
                } else {
                    x.memory_percent_of_total
                }
                &&& r.power_usage_mw == if x.power_status == AMDSMI_STATUS_SUCCESS {
                    x.power.current_socket_power as u64 * 1000
                } else {
                    0
                }
                &&& r.power_limit_mw == if x.power_status == AMDSMI_STATUS_SUCCESS {
                    x.power.power_limit as u64 * 1000
                } else {
                    0
                }
                &&& r.clock_core_mhz == clock_or_zero(x.sys_clock_status, x.sys_clock)
                &&& r.clock_memory_mhz == clock_or_zero(x.df_clock_status, x.df_clock)
                &&& r.temperature_celsius == match x.temperature {
                    Some(t) => t,
                    None => -999i64,
                }
                &&& r.fan_speed_rpm == if x.fan_status == AMDSMI_STATUS_SUCCESS {
                    x.fan_rpm as u32
                } else {
                    0
                }
            },
        },
{
    let mut metrics = AmdDeviceMetrics::default();
    match readings {
        None => {
            metrics.uuid = String::from_str("INVALID_HANDLE");
            metrics.brand = String::from_str("Unknown");
            metrics
        },
        Some(x) => {
            metrics.uuid = if x.uuid_status == AMDSMI_STATUS_SUCCESS {
                c_string_from_buf(x.uuid.as_slice())
            } else {
                String::from_str("UNKNOWN")
            };
            metrics.brand = if x.board_status == AMDSMI_STATUS_SUCCESS {
                let name = c_string_from_buf(x.product_name.as_slice());
                if name.as_str().is_empty() {
                    String::from_str("AMD GPU")
                } else {
                    name
                }
            } else {
                String::from_str("AMD GPU")
            };
            metrics.gpu_utilization_percent = if x.busy_status == AMDSMI_STATUS_SUCCESS {
                x.busy_percent as i64
            } else {
                -1
            };
            let total: u64 = if x.total_status == AMDSMI_STATUS_SUCCESS {
                x.total_bytes
            } else {
                0
            };
            let used: u64 = if x.used_status == AMDSMI_STATUS_SUCCESS {
                x.used_bytes
            } else {
                0
            };
            metrics.memory_total_bytes = total;
            metrics.memory_used_bytes = used;
            metrics.memory_utilization_percent = if total == 0 {
                -1
            } else {
                x.memory_percent_of_total
            };
            if x.power_status == AMDSMI_STATUS_SUCCESS {
                metrics.power_usage_mw = x.power.current_socket_power as u64 * 1000;
                metrics.power_limit_mw = x.power.power_limit as u64 * 1000;
            }
            metrics.clock_core_mhz = match clock_mhz(x.sys_clock_status, &x.sys_clock) {
                Some(m) => m,
                None => 0,
            };
            metrics.clock_memory_mhz = match clock_mhz(x.df_clock_status, &x.df_clock) {
                Some(m) => m,
                None => 0,
            };
            metrics.temperature_celsius = match x.temperature {
                Some(t) => t,
                None => -999,
            };
            metrics.fan_speed_rpm = if x.fan_status == AMDSMI_STATUS_SUCCESS {
                x.fan_rpm as u32
            } else {
                0
            };
            metrics
        },
    }
}

/// The request to send for setting a performance level: the GPU's handle and
/// the level code, when the level name is known and the GPU exists.
pub fn amd_smi_set_perf_level<H: Copy>(ctx: &AmdSmiContext<H>, device_index: u32, level: &str) -> (r:
    Option<(H, u32)>)
    ensures
        r is Some <==> perf_code(lower_text(level@)) is Some && ctx.is_open()
            && (device_index as int) < ctx.gpus().len(),
        r matches Some(p) ==> p.0 == ctx.gpus()[device_index as int] && Some(p.1) == perf_code(
            lower_text(level@),
        ),
{
    let code = match perf_level_code(level) {
        Some(c) => c,
        None => {
            return None;
        },
    };
    match ctx.handle(device_index) {
        Some(h) => Some((h, code)),
        None => None,
    }
}

/// The request to send for a power limit in mW: the GPU's handle and the cap
/// in µW (saturating), when the GPU exists.
pub fn amd_smi_set_power_limit<H: Copy>(
    ctx: &AmdSmiContext<H>,
    device_index: u32,
    power_limit_mw: u64,
) -> (r: Option<(H, u64)>)
    ensures
        r is Some <==> ctx.is_open() && (device_index as int) < ctx.gpus().len(),
        r matches Some(p) ==> p.0 == ctx.gpus()[device_index as int] && p.1 == (
        if power_limit_mw * 1000 > u64::MAX {
            u64::MAX as int
        } else {
            power_limit_mw * 1000
        }),
{
    match ctx.handle(device_index) {
        Some(h) => Some((h, power_cap_microwatts(power_limit_mw))),
        None => None,
    }
}

/// The performance level reported for a GPU: the level when it was read
/// successfully, else -1 (also when there is no such GPU: `None`).
pub fn amd_smi_get_perf_level(reading: Option<(i32, u32)>) -> (r: i32)
    ensures
        r == match reading {
            Some((st, perf)) => if st == AMDSMI_STATUS_SUCCESS {
                perf as i32
            } else {
                -1i32
            },
            None => -1i32,
        },
{
    match reading {
        Some((st, perf)) => if st == AMDSMI_STATUS_SUCCESS {
            perf as i32
        } else {
            -1
        },
        None => -1,
    }
}

/// Clock-level control is reserved; it always reports failure (-1).
pub fn amd_smi_control_clk_level(uuid: &str, level: i32, expiry_secs: u64) -> (r: i32)
    ensures
        r == -1,
{
    -1
}

} // verus!
