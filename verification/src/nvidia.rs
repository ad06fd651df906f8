//! NVIDIA backend decisions: device identity with fallbacks, the cross-device
//! process list, and device lookup by index.

use vstd::prelude::*;

use crate::device::{GpuDevice, Vendor};
use crate::error::GpuError;
use crate::nvml::{kind_label, unique_pids, ProcEntry};
use crate::process::GpuProcessInfo;
use crate::text::{decimal, push_decimal, push_str};

verus! {

/// `prefix` followed by the decimal rendering of `n`.
pub open spec fn numbered(prefix: Seq<char>, n: nat) -> Seq<char> {
    prefix + decimal(n)
}

/// Builds `prefix` followed by the decimal rendering of `n`.
pub fn numbered_string(prefix: &str, n: u64) -> (r: String)
    ensures
        r@ == numbered(prefix@, n as nat),
{
    let mut s = String::from_str(prefix);
    push_decimal(&mut s, n);
    s
}

/// The text held by an optional string, or `default` when absent.
pub open spec fn text_or(s: Option<String>, default: Seq<char>) -> Seq<char> {
    match s {
        Some(v) => v@,
        None => default,
    }
}

/// Identity of NVIDIA device `index` from what NVML reported: the product name
/// (or `NVIDIA GPU <index>`), the UUID (or `nvidia-gpu-<index>`), the PCI bus
/// id and architecture (or empty), the serial and total memory when known.
pub fn nvidia_identity(
    index: u32,
    name: Option<String>,
    uuid: Option<String>,
    pci_bus_id: Option<String>,
    serial: Option<String>,
    architecture: Option<String>,
    memory_total: Option<u64>,
) -> (r: GpuDevice)
    ensures
        r.vendor == Vendor::Nvidia,
        r.index == index as usize,
        r.model@ == text_or(name, numbered("NVIDIA GPU "@, index as nat)),
        r.uuid@ == text_or(uuid, numbered("nvidia-gpu-"@, index as nat)),
        r.pci_bus_id@ == text_or(pci_bus_id, Seq::empty()),
        r.architecture@ == text_or(architecture, Seq::empty()),
        r.serial == serial,
        r.memory_total == memory_total,
{
    let model = match name {
        Some(n) => n,
        None => numbered_string("NVIDIA GPU ", index as u64),
    };
    let uuid = match uuid {
        Some(u) => u,
        None => numbered_string("nvidia-gpu-", index as u64),
    };
    let mut identity = GpuDevice::new(Vendor::Nvidia, index as usize, uuid, model);
    identity.pci_bus_id = match pci_bus_id {
        Some(p) => p,
        None => String::new(),
    };
    identity.serial = serial;
    identity.architecture = match architecture {
        Some(a) => a,
        None => String::new(),
    };
    identity.memory_total = memory_total;
    identity
}

/// The device with position `index` among `slots`, or `DeviceQueryFailed`
/// with `"<prefix><index> not found"`.
pub fn slot_at<H: Copy>(slots: &[H], index: u32, prefix: &str) -> (r: Result<H, GpuError>)
    ensures
        (index as int) < slots@.len() ==> r == Ok::<H, GpuError>(slots@[index as int]),
        (index as int) >= slots@.len() ==> (r matches Err(GpuError::DeviceQueryFailed(m)) && m@
            == numbered(prefix@, index as nat) + " not found"@),
{
    let i: usize = index as usize;
    if i < slots.len() {
        Ok(slots[i])
    } else {
        let mut m = numbered_string(prefix, index as u64);
        push_str(&mut m, " not found");
        Err(GpuError::DeviceQueryFailed(m))
    }
}

/// What a process entry holds, as plain values: pid, device, bytes, kind label.
pub type ProcView = (u32, u32, u64, Seq<char>);

/// The plain-value view of a process entry.
pub open spec fn proc_view(p: GpuProcessInfo) -> ProcView {
    (p.pid, p.gpu_index, p.gpu_memory_bytes, p.process_type@)
}

/// The plain-value views of process entries.
pub open spec fn proc_views(s: Seq<GpuProcessInfo>) -> Seq<ProcView> {
    s.map_values(|p: GpuProcessInfo| proc_view(p))
}

/// Index of the first entry for (`pid`, `gpu`), or -1.
pub open spec fn entry_index(s: Seq<ProcView>, pid: u32, gpu: u32) -> int
    decreases s.len(),
{
    if s.len() == 0 {
        -1
    } else {
        let k = entry_index(s.drop_last(), pid, gpu);
        if k >= 0 {
            k
        } else if s.last().0 == pid && s.last().1 == gpu {
            s.len() - 1
        } else {
            -1
        }
    }
}

/// `entry_index` finds the first entry with the pid on the device; -1 means none.
pub proof fn lemma_entry_index(s: Seq<ProcView>, pid: u32, gpu: u32)
    ensures
        -1 <= entry_index(s, pid, gpu) < s.len(),
        entry_index(s, pid, gpu) == -1 <==> forall|j: int|
            0 <= j < s.len() ==> !(s[j].0 == pid && s[j].1 == gpu),
        entry_index(s, pid, gpu) >= 0 ==> s[entry_index(s, pid, gpu)].0 == pid && s[entry_index(
            s,
            pid,
            gpu,
        )].1 == gpu,
        forall|j: int| 0 <= j < entry_index(s, pid, gpu) ==> !(s[j].0 == pid && s[j].1 == gpu),
    decreases s.len(),
{
    if s.len() > 0 {
        lemma_entry_index(s.drop_last(), pid, gpu);
        let t = s.drop_last();
        assert forall|j: int| 0 <= j < t.len() implies t[j] == s[j] by {}
        if entry_index(t, pid, gpu) == -1 && !(s.last().0 == pid && s.last().1 == gpu) {
            assert forall|j: int| 0 <= j < s.len() implies !(s[j].0 == pid && s[j].1 == gpu) by {
                if j < t.len() {
                    assert(!(t[j].0 == pid && t[j].1 == gpu));
                }
            }
        }
    }
}

/// Adds one device entry to the cross-device list: a known (pid, device) pair
/// becomes `C+G` with the larger memory figure, a new one is appended.
pub open spec fn add_device_entry(out: Seq<ProcView>, gpu: u32, e: ProcEntry) -> Seq<ProcView> {
    let k = entry_index(out, e.0, gpu);
    if k >= 0 {
        out.update(
            k,
            (out[k].0, out[k].1, if out[k].2 >= e.1 {
                out[k].2
            } else {
                e.1
            }, "C+G"@),
        )
    } else {
        out.push((e.0, gpu, e.1, kind_label(e.2)))
    }
}

/// Adds the entries of device `gpu`, in order.
pub open spec fn add_device_entries(out: Seq<ProcView>, gpu: u32, es: Seq<ProcEntry>) -> Seq<
    ProcView,
>
    decreases es.len(),
{
    if es.len() == 0 {
        out
    } else {
        add_device_entry(add_device_entries(out, gpu, es.drop_last()), gpu, es.last())
    }
}

fn find_entry(out: &Vec<GpuProcessInfo>, pid: u32, gpu: u32) -> (r: Option<usize>)
    ensures
        r matches Some(i) ==> i < out.len(),
        match r {
            Some(i) => i == entry_index(proc_views(out@), pid, gpu),
            None => entry_index(proc_views(out@), pid, gpu) == -1,
        },
{
    let ghost v = proc_views(out@);
    proof {
        lemma_entry_index(v, pid, gpu);
    }
    let mut i: usize = 0;
    while i < out.len()
        invariant
            i <= out.len(),
            v == proc_views(out@),
            v.len() == out@.len(),
            forall|j: int| 0 <= j < i ==> !(v[j].0 == pid && v[j].1 == gpu),
            -1 <= entry_index(v, pid, gpu) < v.len(),
            entry_index(v, pid, gpu) == -1 <==> forall|j: int|
                0 <= j < v.len() ==> !(v[j].0 == pid && v[j].1 == gpu),
            entry_index(v, pid, gpu) >= 0 ==> v[entry_index(v, pid, gpu)].0 == pid && v[entry_index(
                v,
                pid,
                gpu,
            )].1 == gpu,
            forall|j: int| 0 <= j < entry_index(v, pid, gpu) ==> !(v[j].0 == pid && v[j].1 == gpu),
        decreases out.len() - i,
    {
        assert(v[i as int] == proc_view(out@[i as int]));
        if out[i].pid == pid && out[i].gpu_index == gpu {
            return Some(i);
        }
        i = i + 1;
    }
    None
}

/// Adds the running processes of device `gpu` to the cross-device list.
pub fn add_device_processes(out: &mut Vec<GpuProcessInfo>, gpu: u32, entries: &[ProcEntry])
    ensures
        proc_views(final(out)@) == add_device_entries(proc_views(old(out)@), gpu, entries@),
{
    let mut i: usize = 0;
    while i < entries.len()
        invariant
            i <= entries.len(),
            proc_views(out@) == add_device_entries(
                proc_views(old(out)@),
                gpu,
                entries@.take(i as int),
            ),
        decreases entries.len() - i,
    {
        let e = entries[i];
        let ghost before = proc_views(out@);
        assert(entries@.take(i + 1).drop_last() =~= entries@.take(i as int));
        assert(entries@.take(i + 1).last() == e);
        match find_entry(out, e.0, gpu) {
            Some(k) => {
                let old_mem = out[k].gpu_memory_bytes;
                let new_mem = if old_mem >= e.1 {
                    old_mem
                } else {
                    e.1
                };
                let pid = out[k].pid;
                let g = out[k].gpu_index;
                out.set(
                    k,
                    GpuProcessInfo {
                        pid,
                        gpu_index: g,
                        gpu_memory_bytes: new_mem,
                        process_type: String::from_str("C+G"),
                    },
                );
            },
            None => {
                out.push(
                    GpuProcessInfo {
                        pid: e.0,
                        gpu_index: gpu,
                        gpu_memory_bytes: e.1,
                        process_type: String::from_str(e.2.as_str()),
                    },
                );
            },
        }
        assert(proc_views(out@) =~= add_device_entry(before, gpu, e));
        i = i + 1;
    }
    assert(entries@.take(entries.len() as int) =~= entries@);
}

/// The cross-device process list: each device's entries in turn, device
/// positions used as indices.
pub open spec fn all_device_entries(devices: Seq<Vec<ProcEntry>>) -> Seq<ProcView>
    decreases devices.len(),
{
    if devices.len() == 0 {
        Seq::empty()
    } else {
        add_device_entries(
            all_device_entries(devices.drop_last()),
            (devices.len() - 1) as u32,
            devices.last()@,
        )
    }
}

/// Processes across all NVIDIA devices: `devices[i]` holds the running
/// processes of device `i`.
pub fn collect_processes(devices: &Vec<Vec<ProcEntry>>) -> (r: Vec<GpuProcessInfo>)
    requires
        devices@.len() <= u32::MAX as int + 1,
    ensures
        proc_views(r@) == all_device_entries(devices@),
{
    let mut out: Vec<GpuProcessInfo> = Vec::new();
    let mut i: usize = 0;
    while i < devices.len()
        invariant
            i <= devices.len(),
            devices@.len() <= u32::MAX as int + 1,
            proc_views(out@) == all_device_entries(devices@.take(i as int)),
        decreases devices.len() - i,
    {
        assert(devices@.take(i + 1).drop_last() =~= devices@.take(i as int));
        add_device_processes(&mut out, i as u32, devices[i].as_slice());
        i = i + 1;
    }
    assert(devices@.take(devices.len() as int) =~= devices@);
    out
}

} // verus!

verus! {

/// The entries of device `gpu` as plain values, unmerged.
pub open spec fn device_views(gpu: u32, es: Seq<ProcEntry>) -> Seq<ProcView> {
    es.map_values(|e: ProcEntry| (e.0, gpu, e.1, kind_label(e.2)))
}

/// All devices' entries one after another, unmerged.
pub open spec fn concat_device_views(devices: Seq<Vec<ProcEntry>>) -> Seq<ProcView>
    decreases devices.len(),
{
    if devices.len() == 0 {
        Seq::empty()
    } else {
        concat_device_views(devices.drop_last()) + device_views(
            (devices.len() - 1) as u32,
            devices.last()@,
        )
    }
}

proof fn lemma_add_fresh_device(out: Seq<ProcView>, gpu: u32, es: Seq<ProcEntry>)
    requires
        forall|j: int| 0 <= j < out.len() ==> out[j].1 < gpu,
        unique_pids(es),
    ensures
        add_device_entries(out, gpu, es) == out + device_views(gpu, es),
    decreases es.len(),
{
    if es.len() > 0 {
        let prefix = es.drop_last();
        assert(unique_pids(prefix)) by {
            assert forall|i: int, j: int| 0 <= i < j < prefix.len() implies prefix[i].0
                != prefix[j].0 by {
                assert(prefix[i] == es[i] && prefix[j] == es[j]);
            }
        }
        lemma_add_fresh_device(out, gpu, prefix);
        let mid = out + device_views(gpu, prefix);
        let e = es.last();
        lemma_entry_index(mid, e.0, gpu);
        assert forall|j: int| 0 <= j < mid.len() implies !(mid[j].0 == e.0 && mid[j].1 == gpu) by {
            if j >= out.len() {
                let m = j - out.len();
                assert(mid[j] == device_views(gpu, prefix)[m]);
                assert(prefix[m] == es[m]);
                assert(es[m].0 != es[es.len() - 1].0);
            }
        }
        assert(add_device_entries(out, gpu, es) =~= out + device_views(gpu, es));
    }
}

/// Law: when each device reports every pid once, gathering processes across
/// devices merges nothing: the list is every device's entries in device order.
pub proof fn law_collect_processes_concatenates(devices: Seq<Vec<ProcEntry>>)
    requires
        devices.len() <= u32::MAX as int + 1,
        forall|d: int| 0 <= d < devices.len() ==> unique_pids(#[trigger] devices[d]@),
    ensures
        all_device_entries(devices) == concat_device_views(devices),
        forall|j: int|
            0 <= j < all_device_entries(devices).len() ==> all_device_entries(devices)[j].1
                < devices.len(),
    decreases devices.len(),
{
    if devices.len() > 0 {
        let prefix = devices.drop_last();
        assert forall|d: int| 0 <= d < prefix.len() implies unique_pids(#[trigger] prefix[d]@) by {
            assert(prefix[d] == devices[d]);
        }
        law_collect_processes_concatenates(prefix);
        let gpu = (devices.len() - 1) as u32;
        assert(unique_pids(devices[devices.len() - 1]@));
        lemma_add_fresh_device(all_device_entries(prefix), gpu, devices.last()@);
    }
}

} // verus!
