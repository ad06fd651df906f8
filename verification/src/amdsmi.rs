//! AMD SMI decisions: clock levels, temperature scaling, board strings, BDF
//! text, performance-level names, power-cap units and device identity.

use vstd::prelude::*;

use crate::device::{GpuDevice, Vendor};
use crate::dynlib::c_string_from_buf;
use crate::error::GpuError;
use crate::nvidia::{numbered, numbered_string, text_or};
use crate::nvml::buf_text;
use crate::text::{
    hex_padded, lemma_hex_padded_len, lower_text, pow16, push_char, push_hex_padded, push_str,
    to_ascii_lowercase,
};

verus! {

/// AMD SMI success status.
pub const AMDSMI_STATUS_SUCCESS: i32 = 0;

/// Power information as AMD SMI reports it.
#[derive(Debug, Clone, Copy)]
pub struct AmdsmiPowerInfo {
    pub socket_power: u64,
    pub current_socket_power: u32,
    pub average_socket_power: u32,
    pub gfx_voltage: u64,
    pub soc_voltage: u64,
    pub mem_voltage: u64,
    pub power_limit: u32,
    pub _pad: u32,
    pub reserved: [u64; 18],
}

/// Clock frequency levels as AMD SMI reports them.
#[derive(Debug, Clone, Copy)]
pub struct AmdsmiFrequencies {
    pub has_deep_sleep: u8,
    pub _pad0: [u8; 3],
    pub num_supported: u32,
    pub current: u32,
    pub _pad1: u32,
    pub frequency: [u64; 33],
}

/// Board information as AMD SMI reports it.
pub struct AmdsmiBoardInfo {
    pub model_number: [u8; 256],
    pub product_serial: [u8; 256],
    pub fru_id: [u8; 256],
    pub product_name: [u8; 256],
    pub manufacturer_name: [u8; 256],
    pub reserved: [u64; 64],
}

/// A raw frequency in MHz: values above 10 000 are taken as Hz.
pub open spec fn raw_to_mhz(raw: u64) -> u32 {
    if raw > 10_000 {
        (raw / 1_000_000) as u32
    } else {
        raw as u32
    }
}

/// Whether the reported current level indexes a supported frequency.
pub open spec fn level_valid(f: AmdsmiFrequencies) -> bool {
    f.current < f.num_supported && f.num_supported > 0
}

/// The current clock in MHz from a frequency table read with `status`.
pub fn clock_mhz(status: i32, freq: &AmdsmiFrequencies) -> (r: Option<u32>)
    requires
        status == AMDSMI_STATUS_SUCCESS && level_valid(*freq) ==> freq.current < 33,
    ensures
        r is Some <==> status == AMDSMI_STATUS_SUCCESS && level_valid(*freq),
        r matches Some(m) ==> m == raw_to_mhz(freq.frequency@[freq.current as int]),
{
    if status != AMDSMI_STATUS_SUCCESS {
        return None;
    }
    let level: usize = freq.current as usize;
    if level < freq.num_supported as usize && freq.num_supported > 0 {
        let raw = freq.frequency[level];
        Some(
            if raw > 10_000 {
                (raw / 1_000_000) as u32
            } else {
                raw as u32
            },
        )
    } else {
        None
    }
}

/// A temperature in °C: readings above 1000 are millidegrees.
pub open spec fn celsius(temp: i64) -> i64 {
    if temp > 1000 {
        (temp / 1000) as i64
    } else {
        temp
    }
}

/// One temperature sensor's reading: usable when read successfully and positive.
pub fn sensor_temperature(status: i32, temp: i64) -> (r: Option<i64>)
    ensures
        r is Some <==> status == AMDSMI_STATUS_SUCCESS && temp > 0,
        r matches Some(c) ==> c == celsius(temp),
{
    if status == AMDSMI_STATUS_SUCCESS && temp > 0 {
        Some(
            if temp > 1000 {
                temp / 1000
            } else {
                temp
            },
        )
    } else {
        None
    }
}

/// Device UUID: the decoded buffer when read successfully, else empty.
pub fn device_uuid(status: i32, buf: &[u8]) -> (r: String)
    ensures
        status == AMDSMI_STATUS_SUCCESS ==> r@ == buf_text(buf@),
        status != AMDSMI_STATUS_SUCCESS ==> r@ == Seq::<char>::empty(),
{
    if status == AMDSMI_STATUS_SUCCESS {
        c_string_from_buf(buf)
    } else {
        String::new()
    }
}

/// Board model and serial: the product name (or `AMD GPU` when empty) and the
/// serial (absent when empty); nothing when the read failed.
pub fn board_info(status: i32, info: &AmdsmiBoardInfo) -> (r: Option<(String, Option<String>)>)
    ensures
        r is Some <==> status == AMDSMI_STATUS_SUCCESS,
        r matches Some(p) ==> p.0@ == (if buf_text(info.product_name@).len() > 0 {
            buf_text(info.product_name@)
        } else {
            "AMD GPU"@
        }) && match p.1 {
            Some(s) => buf_text(info.product_serial@).len() > 0 && s@ == buf_text(
                info.product_serial@,
            ),
            None => buf_text(info.product_serial@).len() == 0,
        },
{
    if status != AMDSMI_STATUS_SUCCESS {
        return None;
    }
    let name = c_string_from_buf(&info.product_name);
    let serial = {
        let s = c_string_from_buf(&info.product_serial);
        if s.as_str().is_empty() {
            None
        } else {
            Some(s)
        }
    };
    let model = if name.as_str().is_empty() {
        String::from_str("AMD GPU")
    } else {
        name
    };
    Some((model, serial))
}

/// The PCI fields packed in an AMD SMI BDF id: domain, bus, device, function.
pub open spec fn bdf_fields(bdf: u64) -> (u64, u64, u64, u64) {
    ((bdf >> 32u64) & 0xffff, (bdf >> 8u64) & 0xff, (bdf >> 3u64) & 0x1f, bdf & 0x7)
}

/// `domain:bus:device.function` for a BDF id.
pub open spec fn bdf_text(bdf: u64) -> Seq<char> {
    let (d, b, dev, f) = bdf_fields(bdf);
    hex_padded(d as nat, 4) + ":"@ + hex_padded(b as nat, 2) + ":"@ + hex_padded(dev as nat, 2)
        + "."@ + hex_padded(f as nat, 1)
}

/// The PCI address text of a device: present when the BDF read succeeded.
pub fn bdf_id(status: i32, bdf: u64) -> (r: Option<String>)
    ensures
        r is Some <==> status == AMDSMI_STATUS_SUCCESS,
        r matches Some(s) ==> s@ == bdf_text(bdf),
{
    if status != AMDSMI_STATUS_SUCCESS {
        return None;
    }
    let domain = (bdf >> 32u64) & 0xffff;
    let bus = (bdf >> 8u64) & 0xff;
    let device = (bdf >> 3u64) & 0x1f;
    let function = bdf & 0x7;
    let mut out = String::new();
    push_hex_padded(&mut out, domain, 4);
    push_char(&mut out, ':');
    push_hex_padded(&mut out, bus, 2);
    push_char(&mut out, ':');
    push_hex_padded(&mut out, device, 2);
    push_char(&mut out, '.');
    push_hex_padded(&mut out, function, 1);
    proof {
        reveal_strlit(":");
        reveal_strlit(".");
    }
    assert(out@ =~= bdf_text(bdf));
    Some(out)
}

/// The performance-level code of a lower-case level name.
pub open spec fn perf_code(name: Seq<char>) -> Option<u32> {
    if name == "auto"@ {
        Some(0u32)
    } else if name == "low"@ {
        Some(1u32)
    } else if name == "high"@ {
        Some(2u32)
    } else if name == "manual"@ {
        Some(3u32)
    } else {
        None
    }
}

/// The performance-level code for `level` in any letter case:
/// `auto`=0, `low`=1, `high`=2, `manual`=3.
pub fn perf_level_code(level: &str) -> (r: Option<u32>)
    ensures
        r == perf_code(lower_text(level@)),
{
    let lower = to_ascii_lowercase(level);
    let l = lower.as_str();
    if str_eq(l, "auto") {
        Some(0)
    } else if str_eq(l, "low") {
        Some(1)
    } else if str_eq(l, "high") {
        Some(2)
    } else if str_eq(l, "manual") {
        Some(3)
    } else {
        None
    }
}

/// Whether two strings hold the same characters.
pub fn str_eq(a: &str, b: &str) -> (r: bool)
    ensures
        r == (a@ == b@),
{
    let n = a.unicode_len();
    if n != b.unicode_len() {
        return false;
    }
    let mut i: usize = 0;
    while i < n
        invariant
            i <= n,
            n == a@.len(),
            n == b@.len(),
            forall|j: int| 0 <= j < i ==> a@[j] == b@[j],
        decreases n - i,
    {
        if a.get_char(i) != b.get_char(i) {
            return false;
        }
        i = i + 1;
    }
    assert(a@ =~= b@);
    true
}

/// The code to send for a performance-level name, or `Unsupported` naming the
/// lower-cased level.
pub fn amd_perf_level(level: &str) -> (r: Result<u32, GpuError>)
    ensures
        match perf_code(lower_text(level@)) {
            Some(c) => r == Ok::<u32, GpuError>(c),
            None => r matches Err(GpuError::Unsupported(m)) && m@ == "unknown AMD perf level `"@
                + lower_text(level@) + "`"@,
        },
{
    match perf_level_code(level) {
        Some(c) => Ok(c),
        None => {
            let lower = to_ascii_lowercase(level);
            let mut m = String::from_str("unknown AMD perf level `");
            push_str(&mut m, lower.as_str());
            push_str(&mut m, "`");
            Err(GpuError::Unsupported(m))
        },
    }
}

/// The power cap AMD SMI expects (µW) for a limit in mW, saturating.
pub fn power_cap_microwatts(milliwatts: u64) -> (r: u64)
    ensures
        r == if milliwatts * 1000 > u64::MAX {
            u64::MAX as int
        } else {
            milliwatts * 1000
        },
{
    if milliwatts > u64::MAX / 1000 {
        u64::MAX
    } else {
        milliwatts * 1000
    }
}

/// Identity of AMD device `index`: board model (or `AMD GPU`) and serial, the
/// UUID (or `amd-gpu-<index>` when empty), the PCI address (or empty) and the
/// total memory when known.
pub fn amd_identity(
    index: usize,
    board: Option<(String, Option<String>)>,
    uuid: String,
    pci_bus_id: Option<String>,
    memory_total: Option<u64>,
) -> (r: GpuDevice)
    ensures
        r.vendor == Vendor::Amd,
        r.index == index,
        r.model@ == match board {
            Some(b) => b.0@,
            None => "AMD GPU"@,
        },
        r.serial == match board {
            Some(b) => b.1,
            None => None,
        },
        r.uuid@ == if uuid@.len() == 0 {
            numbered("amd-gpu-"@, index as nat)
        } else {
            uuid@
        },
        r.pci_bus_id@ == text_or(pci_bus_id, Seq::empty()),
        r.architecture@ == Seq::<char>::empty(),
        r.memory_total == memory_total,
{
    let (model, serial) = match board {
        Some(b) => b,
        None => (String::from_str("AMD GPU"), None),
    };
    let uuid = if uuid.as_str().is_empty() {
        numbered_string("amd-gpu-", index as u64)
    } else {
        uuid
    };
    let mut identity = GpuDevice::new(Vendor::Amd, index, uuid, model);
    identity.serial = serial;
    identity.pci_bus_id = match pci_bus_id {
        Some(p) => p,
        None => String::new(),
    };
    identity.memory_total = memory_total;
    identity
}

} // verus!

verus! {

/// Law: a BDF id always renders as `dddd:bb:dd.f` — 12 characters with `:` at
/// positions 4 and 7 and `.` at 10 — because each field is masked to its width.
pub proof fn law_bdf_layout(bdf: u64)
    ensures
        bdf_text(bdf).len() == 12,
        bdf_text(bdf)[4] == ':' && bdf_text(bdf)[7] == ':' && bdf_text(bdf)[10] == '.',
{
    reveal_strlit(":");
    reveal_strlit(".");
    let (d, b, dev, f) = bdf_fields(bdf);
    assert((bdf >> 32u64) & 0xffff <= 0xffff) by (bit_vector);
    assert((bdf >> 8u64) & 0xff <= 0xff) by (bit_vector);
    assert((bdf >> 3u64) & 0x1f <= 0x1f) by (bit_vector);
    assert(bdf & 0x7 <= 0x7) by (bit_vector);
    assert(pow16(1) == 16 && pow16(2) == 256 && pow16(4) == 65536) by {
        assert(pow16(0) == 1);
        assert(pow16(3) == 4096);
    }
    lemma_hex_padded_len(d as nat, 4);
    lemma_hex_padded_len(b as nat, 2);
    lemma_hex_padded_len(dev as nat, 2);
    lemma_hex_padded_len(f as nat, 1);
    let t = bdf_text(bdf);
    assert(t[4] == ':');
    assert(t[7] == ':');
    assert(t[10] == '.');
}

/// Law: a usable temperature reading stays positive after scaling; readings
/// up to 1000 are already degrees and are kept.
pub proof fn law_celsius_range(temp: i64)
    requires
        temp > 0,
    ensures
        0 < celsius(temp) <= temp,
        temp <= 1000 ==> celsius(temp) == temp,
{
}

/// Law: every level name the control tools send maps to its code, and the
/// code's display name is the same name again; names are matched in any case.
pub proof fn law_perf_level_names(name: Seq<char>)
    ensures
        perf_code(lower_text("auto"@)) == Some(0u32),
        perf_code(lower_text("low"@)) == Some(1u32),
        perf_code(lower_text("high"@)) == Some(2u32),
        perf_code(lower_text("manual"@)) == Some(3u32),
        perf_code(lower_text("HIGH"@)) == Some(2u32),
        lower_text(lower_text(name)) == lower_text(name),
{
    reveal_strlit("auto");
    reveal_strlit("low");
    reveal_strlit("high");
    reveal_strlit("manual");
    reveal_strlit("HIGH");
    assert(lower_text("auto"@) =~= "auto"@);
    assert(lower_text("low"@) =~= "low"@);
    assert(lower_text("high"@) =~= "high"@);
    assert(lower_text("manual"@) =~= "manual"@);
    assert(lower_text("HIGH"@) =~= "high"@);
    assert("high"@[0] != "auto"@[0]);
    assert("high"@.len() != "low"@.len());
    assert(lower_text(lower_text(name)) =~= lower_text(name));
}

} // verus!
