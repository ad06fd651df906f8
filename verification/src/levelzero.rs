//! Level Zero / Sysman decisions for Intel GPUs: UUID and PCI address text,
//! Sysman string fields, memory-module totals, counter deltas and device
//! identity.

use vstd::prelude::*;

use crate::device::{GpuDevice, Vendor};
use crate::dynlib::c_string_from_buf;
use crate::nvidia::{numbered, numbered_string};
use crate::nvml::buf_text;
use crate::text::{
    eq_ignore_ascii_case, hex_padded, lemma_hex_padded_len, pow16, push_char, push_hex_padded,
    str_eq_ignore_ascii_case,
};

verus! {

/// Level Zero success status.
pub const ZE_RESULT_SUCCESS: u32 = 0;

/// `ze_device_type_t` value of a GPU.
pub const ZE_DEVICE_TYPE_GPU: u32 = 1;

/// Energy counter sample (µJ and µs timestamp).
#[derive(Debug, Clone, Copy, Default)]
pub struct ZesPowerEnergyCounter {
    pub energy: u64,
    pub timestamp: u64,
}

/// Engine activity sample (active µs and µs timestamp).
#[derive(Debug, Clone, Copy, Default)]
pub struct ZesEngineStats {
    pub active_time: u64,
    pub timestamp: u64,
}

/// PCI address (domain / bus / device / function).
#[derive(Debug, Clone, Copy, Default)]
pub struct ZesPciAddress {
    pub domain: u32,
    pub bus: u32,
    pub device: u32,
    pub function: u32,
}

/// PCI link speed.
#[derive(Debug, Clone, Copy, Default)]
pub struct ZesPciSpeed {
    pub gen: i32,
    pub width: i32,
    pub max_bandwidth: i64,
}

/// Two-digit lower-case hex of each byte, concatenated.
pub open spec fn hex_bytes(s: Seq<u8>) -> Seq<char>
    decreases s.len(),
{
    if s.len() == 0 {
        Seq::empty()
    } else {
        hex_bytes(s.drop_last()) + hex_padded(s.last() as nat, 2)
    }
}

/// The hyphenated UUID text: bytes 0-3, 4-5, 6-7, 8-9 and 10-15 in hex.
pub open spec fn uuid_text(u: Seq<u8>) -> Seq<char> {
    hex_bytes(u.subrange(0, 4)) + "-"@ + hex_bytes(u.subrange(4, 6)) + "-"@ + hex_bytes(
        u.subrange(6, 8),
    ) + "-"@ + hex_bytes(u.subrange(8, 10)) + "-"@ + hex_bytes(u.subrange(10, 16))
}

fn push_hex_bytes(out: &mut String, u: &[u8; 16], from: usize, to: usize)
    requires
        from <= to <= 16,
    ensures
        final(out)@ == old(out)@ + hex_bytes(u@.subrange(from as int, to as int)),
{
    let mut i: usize = from;
    while i < to
        invariant
            from <= i <= to,
            to <= 16,
            out@ == old(out)@ + hex_bytes(u@.subrange(from as int, i as int)),
        decreases to - i,
    {
        assert(u@.subrange(from as int, i + 1).drop_last() =~= u@.subrange(from as int, i as int));
        push_hex_padded(out, u[i] as u64, 2);
        assert(out@ =~= old(out)@ + hex_bytes(u@.subrange(from as int, i + 1)));
        i = i + 1;
    }
}

/// Format a 16-byte UUID as a hyphenated hex string.
pub fn format_uuid(uuid: &[u8; 16]) -> (r: String)
    ensures
        r@ == uuid_text(uuid@),
{
    let mut out = String::new();
    push_hex_bytes(&mut out, uuid, 0, 4);
    push_char(&mut out, '-');
    push_hex_bytes(&mut out, uuid, 4, 6);
    push_char(&mut out, '-');
    push_hex_bytes(&mut out, uuid, 6, 8);
    push_char(&mut out, '-');
    push_hex_bytes(&mut out, uuid, 8, 10);
    push_char(&mut out, '-');
    push_hex_bytes(&mut out, uuid, 10, 16);
    proof {
        reveal_strlit("-");
    }
    assert(out@ =~= uuid_text(uuid@));
    out
}

/// Whether a Sysman string field counts as present: not empty and not
/// `unknown` in any letter case.
pub open spec fn sysman_text_present(t: Seq<char>) -> bool {
    t.len() > 0 && !eq_ignore_ascii_case(t, "unknown"@)
}

/// Decode a Sysman C string field, treating `"unknown"` (any case) and the
/// empty string as absent.
pub fn zes_string(buf: &[u8]) -> (r: Option<String>)
    ensures
        r is Some <==> sysman_text_present(buf_text(buf@)),
        r matches Some(s) ==> s@ == buf_text(buf@),
{
    let s = c_string_from_buf(buf);
    if s.as_str().is_empty() || str_eq_ignore_ascii_case(s.as_str(), "unknown") {
        None
    } else {
        Some(s)
    }
}

/// `domain:bus:device.function` with 4, 2, 2 and 1+ hex digits.
pub open spec fn pci_address_text(a: ZesPciAddress) -> Seq<char> {
    hex_padded(a.domain as nat, 4) + ":"@ + hex_padded(a.bus as nat, 2) + ":"@ + hex_padded(
        a.device as nat,
        2,
    ) + "."@ + hex_padded(a.function as nat, 1)
}

/// PCI BDF string like `0000:03:00.0`.
pub fn format_pci_address(a: ZesPciAddress) -> (r: String)
    ensures
        r@ == pci_address_text(a),
{
    let mut out = String::new();
    push_hex_padded(&mut out, a.domain as u64, 4);
    push_char(&mut out, ':');
    push_hex_padded(&mut out, a.bus as u64, 2);
    push_char(&mut out, ':');
    push_hex_padded(&mut out, a.device as u64, 2);
    push_char(&mut out, '.');
    push_hex_padded(&mut out, a.function as u64, 1);
    proof {
        reveal_strlit(":");
        reveal_strlit(".");
    }
    assert(out@ =~= pci_address_text(a));
    out
}

/// Saturating sum of the sizes (`.1`) and frees (`.0`) of the readable modules.
pub open spec fn module_totals(states: Seq<Option<(u64, u64)>>) -> (u64, u64)
    decreases states.len(),
{
    if states.len() == 0 {
        (0, 0)
    } else {
        let (free, size) = module_totals(states.drop_last());
        match states.last() {
            Some(st) => (
                if free + st.0 > u64::MAX {
                    u64::MAX
                } else {
                    (free + st.0) as u64
                },
                if size + st.1 > u64::MAX {
                    u64::MAX
                } else {
                    (size + st.1) as u64
                },
            ),
            None => (free, size),
        }
    }
}

/// `(used, total)` bytes over the memory modules whose state could be read
/// (`Some((free, size))`); absent when the total is zero.
pub fn memory_state(states: &[Option<(u64, u64)>]) -> (r: Option<(u64, u64)>)
    ensures
        r is Some <==> module_totals(states@).1 > 0,
        r matches Some(p) ==> p.1 == module_totals(states@).1 && p.0 == (if module_totals(
            states@,
        ).1 >= module_totals(states@).0 {
            module_totals(states@).1 - module_totals(states@).0
        } else {
            0
        }),
{
    let mut free: u64 = 0;
    let mut total: u64 = 0;
    let mut i: usize = 0;
    while i < states.len()
        invariant
            i <= states.len(),
            (free, total) == module_totals(states@.take(i as int)),
        decreases states.len() - i,
    {
        assert(states@.take(i + 1).drop_last() =~= states@.take(i as int));
        match states[i] {
            Some(st) => {
                free = free.saturating_add(st.0);
                total = total.saturating_add(st.1);
            },
            None => {},
        }
        i = i + 1;
    }
    assert(states@.take(states.len() as int) =~= states@);
    if total == 0 {
        None
    } else {
        Some((total.saturating_sub(free), total))
    }
}

/// Whether an enumerated device is listed: its properties were read and it is
/// a GPU, or it at least has a name.
pub fn is_listed_device(status: u32, device_type: u32, name: &[u8]) -> (r: bool)
    ensures
        r == (status == ZE_RESULT_SUCCESS && (device_type == ZE_DEVICE_TYPE_GPU || buf_text(
            name@,
        ).len() > 0)),
{
    if status != ZE_RESULT_SUCCESS {
        false
    } else if device_type == ZE_DEVICE_TYPE_GPU {
        true
    } else {
        !c_string_from_buf(name).as_str().is_empty()
    }
}

/// Counter increase and elapsed time between two samples, when time advanced.
pub open spec fn sample_delta(prev: (u64, u64), cur: (u64, u64)) -> Option<(u64, u64)> {
    let dv = if cur.0 >= prev.0 {
        (cur.0 - prev.0) as u64
    } else {
        0u64
    };
    let dt = if cur.1 >= prev.1 {
        (cur.1 - prev.1) as u64
    } else {
        0u64
    };
    if dt > 0 {
        Some((dv, dt))
    } else {
        None
    }
}

/// Energy used (µJ) and time elapsed (µs) since the previous sample; their
/// ratio is the power draw in watts.
pub fn energy_delta(prev: Option<ZesPowerEnergyCounter>, cur: ZesPowerEnergyCounter) -> (r: Option<
    (u64, u64),
>)
    ensures
        match prev {
            Some(p) => r == sample_delta((p.energy, p.timestamp), (cur.energy, cur.timestamp)),
            None => r is None,
        },
{
    match prev {
        Some(p) => {
            let de = cur.energy.saturating_sub(p.energy);
            let dt = cur.timestamp.saturating_sub(p.timestamp);
            if dt > 0 {
                Some((de, dt))
            } else {
                None
            }
        },
        None => None,
    }
}

/// Engine active time and elapsed time (µs) since the previous sample; their
/// ratio is the utilization.
pub fn activity_delta(prev: Option<ZesEngineStats>, cur: ZesEngineStats) -> (r: Option<(u64, u64)>)
    ensures
        match prev {
            Some(p) => r == sample_delta((p.active_time, p.timestamp), (cur.active_time, cur.timestamp)),
            None => r is None,
        },
{
    match prev {
        Some(p) => {
            let da = cur.active_time.saturating_sub(p.active_time);
            let dt = cur.timestamp.saturating_sub(p.timestamp);
            if dt > 0 {
                Some((da, dt))
            } else {
                None
            }
        },
        None => None,
    }
}

/// Identity fields from the core device properties.
pub struct CoreProperties {
    /// The device name buffer.
    pub name: Vec<u8>,
    /// The device UUID.
    pub uuid: [u8; 16],
    /// Largest single allocation, used as a memory-size hint.
    pub max_mem_alloc_size: u64,
}

/// Identity fields from the Sysman device properties.
pub struct SysmanProperties {
    pub model_name: Vec<u8>,
    pub brand_name: Vec<u8>,
    pub serial_number: Vec<u8>,
}

/// What the Sysman handle of a device yielded, when one was found.
pub struct SysmanInfo {
    /// Sysman device properties, when readable.
    pub properties: Option<SysmanProperties>,
    /// The formatted PCI address, when readable.
    pub pci_bus_id: Option<String>,
}

/// The model chosen from Sysman: the model name, else the brand name.
pub open spec fn sysman_model(p: SysmanProperties) -> Option<Seq<char>> {
    if sysman_text_present(buf_text(p.model_name@)) {
        Some(buf_text(p.model_name@))
    } else if sysman_text_present(buf_text(p.brand_name@)) {
        Some(buf_text(p.brand_name@))
    } else {
        None
    }
}

/// The model named by the core properties (or `Intel GPU <index>`).
pub open spec fn core_model(index: nat, core: Option<CoreProperties>) -> Seq<char> {
    match core {
        Some(c) => if buf_text(c.name@).len() > 0 {
            buf_text(c.name@)
        } else {
            numbered("Intel GPU "@, index)
        },
        None => numbered("Intel GPU "@, index),
    }
}

/// Identity of Intel device `index`: core properties give the name, UUID and a
/// memory hint; Sysman, when present, may replace the model and gives the
/// serial and PCI address.
pub fn intel_identity(index: usize, core: Option<CoreProperties>, sysman: Option<SysmanInfo>) -> (r:
    GpuDevice)
    ensures
        r.vendor == Vendor::Intel,
        r.index == index,
        r.uuid@ == match core {
            Some(c) => uuid_text(c.uuid@),
            None => numbered("intel-gpu-"@, index as nat),
        },
        r.memory_total == match core {
            Some(c) => if c.max_mem_alloc_size > 0 {
                Some(c.max_mem_alloc_size)
            } else {
                None
            },
            None => None,
        },
        r.model@ == match sysman {
            Some(s) => match s.properties {
                Some(p) => match sysman_model(p) {
                    Some(m) => m,
                    None => core_model(index as nat, core),
                },
                None => core_model(index as nat, core),
            },
            None => core_model(index as nat, core),
        },
        match sysman {
            Some(s) => match s.properties {
                Some(p) => match r.serial {
                    Some(v) => sysman_text_present(buf_text(p.serial_number@)) && v@ == buf_text(
                        p.serial_number@,
                    ),
                    None => !sysman_text_present(buf_text(p.serial_number@)),
                },
                None => r.serial is None,
            },
            None => r.serial is None,
        },
        r.pci_bus_id@ == match sysman {
            Some(s) => match s.pci_bus_id {
                Some(p) => p@,
                None => Seq::empty(),
            },
            None => Seq::empty(),
        },
        r.architecture@ == Seq::<char>::empty(),
{
    let (model, uuid, hint) = match &core {
        Some(c) => {
            let name = c_string_from_buf(c.name.as_slice());
            let model = if name.as_str().is_empty() {
                numbered_string("Intel GPU ", index as u64)
            } else {
                name
            };
            let hint = if c.max_mem_alloc_size > 0 {
                Some(c.max_mem_alloc_size)
            } else {
                None
            };
            (model, format_uuid(&c.uuid), hint)
        },
        None => (
            numbered_string("Intel GPU ", index as u64),
            numbered_string("intel-gpu-", index as u64),
            None,
        ),
    };
    let mut identity = GpuDevice::new(Vendor::Intel, index, uuid, model);
    identity.memory_total = hint;
    match sysman {
        Some(s) => {
            match s.properties {
                Some(p) => {
                    let chosen = match zes_string(p.model_name.as_slice()) {
                        Some(m) => Some(m),
                        None => zes_string(p.brand_name.as_slice()),
                    };
                    match chosen {
                        Some(m) => {
                            identity.model = m;
                        },
                        None => {},
                    }
                    identity.serial = zes_string(p.serial_number.as_slice());
                },
                None => {},
            }
            identity.pci_bus_id = match s.pci_bus_id {
                Some(p) => p,
                None => String::new(),
            };
        },
        None => {},
    }
    identity
}

} // verus!

verus! {

proof fn lemma_hex_bytes_len(s: Seq<u8>)
    ensures
        hex_bytes(s).len() == 2 * s.len(),
    decreases s.len(),
{
    if s.len() > 0 {
        lemma_hex_bytes_len(s.drop_last());
        assert(pow16(2) == 256) by {
            assert(pow16(0) == 1);
            assert(pow16(1) == 16);
        }
        lemma_hex_padded_len(s.last() as nat, 2);
    }
}

/// Law: a formatted UUID is 36 characters long with hyphens at positions 8,
/// 13, 18 and 23 (the 8-4-4-4-12 layout).
pub proof fn law_uuid_layout(u: Seq<u8>)
    requires
        u.len() == 16,
    ensures
        uuid_text(u).len() == 36,
        uuid_text(u)[8] == '-' && uuid_text(u)[13] == '-' && uuid_text(u)[18] == '-'
            && uuid_text(u)[23] == '-',
{
    reveal_strlit("-");
    lemma_hex_bytes_len(u.subrange(0, 4));
    lemma_hex_bytes_len(u.subrange(4, 6));
    lemma_hex_bytes_len(u.subrange(6, 8));
    lemma_hex_bytes_len(u.subrange(8, 10));
    lemma_hex_bytes_len(u.subrange(10, 16));
    let t = uuid_text(u);
    assert(t[8] == '-');
    assert(t[13] == '-');
    assert(t[18] == '-');
    assert(t[23] == '-');
}

/// Law: a device's Sysman model name, when present, is its model; the brand
/// name stands in only when the model name is absent, and with neither the
/// core properties name the device.
pub proof fn law_intel_model_precedence(p: SysmanProperties)
    ensures
        sysman_text_present(buf_text(p.model_name@)) ==> sysman_model(p) == Some(
            buf_text(p.model_name@),
        ),
        !sysman_text_present(buf_text(p.model_name@)) && sysman_text_present(
            buf_text(p.brand_name@),
        ) ==> sysman_model(p) == Some(buf_text(p.brand_name@)),
        !sysman_text_present(buf_text(p.model_name@)) && !sysman_text_present(
            buf_text(p.brand_name@),
        ) ==> sysman_model(p) is None,
{
}

} // verus!
