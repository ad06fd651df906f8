//! Decisions NVML's monitoring calls make on the raw values they return:
//! status codes, architecture names, CUDA version text and the merging of
//! per-process occupancy records.

use vstd::prelude::*;

use crate::dynlib::{c_string_end, c_string_from_buf, utf8_lossy};
use crate::error::GpuError;
use crate::text::{decimal, push_char, push_decimal, push_str};

verus! {

/// NVML success status.
pub const NVML_SUCCESS: u32 = 0;

/// NVML status for "buffer too small"; the call still reports the needed count.
pub const NVML_ERROR_INSUFFICIENT_SIZE: u32 = 2;

/// A process record as NVML reports it.
#[derive(Debug, Clone, Copy, Default)]
pub struct NvmlProcessInfo {
    pub pid: u32,
    pub used_gpu_memory: u64,
    pub gpu_instance_id: u32,
    pub compute_instance_id: u32,
}

/// How a process uses a GPU.
#[derive(Debug, Clone, Copy, PartialEq, Eq, Structural)]
pub enum ProcessKind {
    /// Compute (`"C"`).
    Compute,
    /// Graphics (`"G"`).
    Graphics,
    /// Both compute and graphics (`"C+G"`).
    ComputeGraphics,
}

/// The label NVML tools print for a process kind.
pub open spec fn kind_label(k: ProcessKind) -> Seq<char> {
    match k {
        ProcessKind::Compute => "C"@,
        ProcessKind::Graphics => "G"@,
        ProcessKind::ComputeGraphics => "C+G"@,
    }
}

impl ProcessKind {
    /// `"C"`, `"G"` or `"C+G"`.
    pub fn as_str(self) -> (r: &'static str)
        ensures
            r@ == kind_label(self),
    {
        match self {
            ProcessKind::Compute => "C",
            ProcessKind::Graphics => "G",
            ProcessKind::ComputeGraphics => "C+G",
        }
    }
}

/// The name of an `nvmlDeviceArchitecture_t` code.
pub open spec fn arch_label(arch: u32) -> Seq<char> {
    if arch == 2 {
        "Kepler"@
    } else if arch == 3 {
        "Maxwell"@
    } else if arch == 4 {
        "Pascal"@
    } else if arch == 5 {
        "Volta"@
    } else if arch == 6 {
        "Turing"@
    } else if arch == 7 {
        "Ampere"@
    } else if arch == 8 {
        "Ada"@
    } else if arch == 9 {
        "Hopper"@
    } else if arch == 10 {
        "Blackwell"@
    } else {
        "NVIDIA"@
    }
}

/// Architecture name for an NVML architecture code; unknown codes map to `"NVIDIA"`.
pub fn nvml_arch_name(arch: u32) -> (r: &'static str)
    ensures
        r@ == arch_label(arch),
{
    match arch {
        2 => "Kepler",
        3 => "Maxwell",
        4 => "Pascal",
        5 => "Volta",
        6 => "Turing",
        7 => "Ampere",
        8 => "Ada",
        9 => "Hopper",
        10 => "Blackwell",
        _ => "NVIDIA",
    }
}

/// `"major.minor"` for a CUDA driver version integer such as `12040`.
pub open spec fn cuda_version_text(ver: int) -> Seq<char> {
    decimal((ver / 1000) as nat) + "."@ + decimal(((ver % 1000) / 10) as nat)
}

/// The CUDA version reported by `nvmlSystemGetCudaDriverVersion`: present only
/// when the call succeeded with a positive version.
pub fn cuda_version_string(status: u32, ver: i32) -> (r: Option<String>)
    ensures
        r is Some <==> status == NVML_SUCCESS && ver > 0,
        r matches Some(s) ==> s@ == cuda_version_text(ver as int),
{
    if status == NVML_SUCCESS && ver > 0 {
        let mut out = String::new();
        let major: i32 = ver / 1000;
        let minor: i32 = (ver % 1000) / 10;
        push_decimal(&mut out, major as u64);
        push_char(&mut out, '.');
        push_decimal(&mut out, minor as u64);
        proof {
            reveal_strlit(".");
        }
        assert(out@ =~= cuda_version_text(ver as int));
        Some(out)
    } else {
        None
    }
}

/// The text of a C-string buffer after decoding.
pub open spec fn buf_text(buf: Seq<u8>) -> Seq<char> {
    utf8_lossy(buf.take(c_string_end(buf)))
}

/// A string query result (name, UUID, PCI bus id, driver version): the decoded
/// buffer when the call succeeded.
pub fn nvml_string(status: u32, buf: &[u8]) -> (r: Option<String>)
    ensures
        r is Some <==> status == NVML_SUCCESS,
        r matches Some(s) ==> s@ == buf_text(buf@),
{
    if status == NVML_SUCCESS {
        Some(c_string_from_buf(buf))
    } else {
        None
    }
}

/// The board serial: like [`nvml_string`], but an empty serial counts as absent.
pub fn nvml_serial(status: u32, buf: &[u8]) -> (r: Option<String>)
    ensures
        r is Some <==> status == NVML_SUCCESS && buf_text(buf@).len() > 0,
        r matches Some(s) ==> s@ == buf_text(buf@),
{
    if status == NVML_SUCCESS {
        let s = c_string_from_buf(buf);
        if s.as_str().is_empty() {
            None
        } else {
            Some(s)
        }
    } else {
        None
    }
}

/// Max graphics / memory clocks: present when either query succeeded.
pub fn max_clocks(gfx_status: u32, gfx: u32, mem_status: u32, mem: u32) -> (r: Option<(u32, u32)>)
    ensures
        r is Some <==> gfx_status == NVML_SUCCESS || mem_status == NVML_SUCCESS,
        r matches Some(p) ==> p == (gfx, mem),
{
    if gfx_status == NVML_SUCCESS || mem_status == NVML_SUCCESS {
        Some((gfx, mem))
    } else {
        None
    }
}

/// `prefix` followed by `" returned "` and the decimal status code.
pub open spec fn returned_text(prefix: Seq<char>, status: u32) -> Seq<char> {
    prefix + " returned "@ + decimal(status as nat)
}

/// Builds `"<prefix> returned <status>"`.
pub fn returned_message(prefix: &str, status: u32) -> (r: String)
    ensures
        r@ == returned_text(prefix@, status),
{
    let mut out = String::from_str(prefix);
    push_str(&mut out, " returned ");
    push_decimal(&mut out, status as u64);
    assert(out@ =~= returned_text(prefix@, status));
    out
}

/// Finishes a two-phase clock-list query: the second call's status decides,
/// "buffer too small" is tolerated, and the list is cut to the reported count.
pub fn finish_clock_list(status: u32, clocks: Vec<u32>, count: u32, what: &str) -> (r: Result<
    Vec<u32>,
    GpuError,
>)
    ensures
        r is Ok <==> status == NVML_SUCCESS || status == NVML_ERROR_INSUFFICIENT_SIZE,
        r matches Ok(v) ==> v@ == clocks@.take(
            if count as int <= clocks@.len() {
                count as int
            } else {
                clocks@.len() as int
            },
        ),
        r matches Err(e) ==> e matches GpuError::DeviceQueryFailed(m) && m@ == returned_text(
            what@,
            status,
        ),
{
    if status != NVML_SUCCESS && status != NVML_ERROR_INSUFFICIENT_SIZE {
        return Err(GpuError::DeviceQueryFailed(returned_message(what, status)));
    }
    let ghost before = clocks@;
    let mut clocks = clocks;
    let n: usize = count as usize;
    clocks.truncate(n);
    proof {
        if n > before.len() {
            assert(before.take(before.len() as int) =~= before);
        } else {
            assert(before.take(n as int) =~= before.subrange(0, n as int));
        }
    }
    Ok(clocks)
}

} // verus!

verus! {

/// One process occupancy entry: pid, bytes of GPU memory, kind.
pub type ProcEntry = (u32, u64, ProcessKind);

/// NVML reports `u64::MAX` when a process's memory use is unavailable; that is shown as 0.
pub open spec fn reported_memory(m: u64) -> u64 {
    if m == u64::MAX {
        0
    } else {
        m
    }
}

/// Index of the first entry of `s` with this pid, or -1.
pub open spec fn pid_index(s: Seq<ProcEntry>, pid: u32) -> int
    decreases s.len(),
{
    if s.len() == 0 {
        -1
    } else {
        let k = pid_index(s.drop_last(), pid);
        if k >= 0 {
            k
        } else if s.last().0 == pid {
            s.len() - 1
        } else {
            -1
        }
    }
}

/// `pid_index` finds the first entry with the pid, and -1 means there is none.
pub proof fn lemma_pid_index(s: Seq<ProcEntry>, pid: u32)
    ensures
        -1 <= pid_index(s, pid) < s.len(),
        pid_index(s, pid) == -1 <==> forall|j: int| 0 <= j < s.len() ==> s[j].0 != pid,
        pid_index(s, pid) >= 0 ==> s[pid_index(s, pid)].0 == pid,
        forall|j: int| 0 <= j < pid_index(s, pid) ==> s[j].0 != pid,
    decreases s.len(),
{
    if s.len() > 0 {
        lemma_pid_index(s.drop_last(), pid);
        let t = s.drop_last();
        assert forall|j: int| 0 <= j < t.len() implies t[j] == s[j] by {}
        if pid_index(t, pid) == -1 && s.last().0 != pid {
            assert forall|j: int| 0 <= j < s.len() implies s[j].0 != pid by {
                if j < t.len() {
                    assert(t[j].0 != pid);
                }
            }
        }
    }
}

/// Folds one NVML record into the entries: pid 0 is skipped, a known pid keeps
/// the larger memory figure and becomes `C+G`, a new pid is appended.
pub open spec fn merge_record(out: Seq<ProcEntry>, info: NvmlProcessInfo, kind: ProcessKind) -> Seq<
    ProcEntry,
> {
    if info.pid == 0 {
        out
    } else {
        let mem = reported_memory(info.used_gpu_memory);
        let k = pid_index(out, info.pid);
        if k >= 0 {
            out.update(
                k,
                (info.pid, if out[k].1 >= mem {
                    out[k].1
                } else {
                    mem
                }, ProcessKind::ComputeGraphics),
            )
        } else {
            out.push((info.pid, mem, kind))
        }
    }
}

/// Folds the records, in order, into the entries.
pub open spec fn merge_records(
    out: Seq<ProcEntry>,
    infos: Seq<NvmlProcessInfo>,
    kind: ProcessKind,
) -> Seq<ProcEntry>
    decreases infos.len(),
{
    if infos.len() == 0 {
        out
    } else {
        merge_record(merge_records(out, infos.drop_last(), kind), infos.last(), kind)
    }
}

fn find_pid(out: &Vec<ProcEntry>, pid: u32) -> (r: Option<usize>)
    ensures
        r matches Some(i) ==> i < out.len(),
        match r {
            Some(i) => i == pid_index(out@, pid),
            None => pid_index(out@, pid) == -1,
        },
{
    proof {
        lemma_pid_index(out@, pid);
    }
    let mut i: usize = 0;
    while i < out.len()
        invariant
            i <= out.len(),
            forall|j: int| 0 <= j < i ==> out@[j].0 != pid,
            -1 <= pid_index(out@, pid) < out@.len(),
            pid_index(out@, pid) == -1 <==> forall|j: int| 0 <= j < out@.len() ==> out@[j].0 != pid,
            pid_index(out@, pid) >= 0 ==> out@[pid_index(out@, pid)].0 == pid,
            forall|j: int| 0 <= j < pid_index(out@, pid) ==> out@[j].0 != pid,
        decreases out.len() - i,
    {
        if out[i].0 == pid {
            return Some(i);
        }
        i = i + 1;
    }
    None
}

/// Folds NVML process records into `out` (the body of NVML's process listing).
pub fn merge_process_records(out: &mut Vec<ProcEntry>, infos: &[NvmlProcessInfo], kind: ProcessKind)
    ensures
        final(out)@ == merge_records(old(out)@, infos@, kind),
{
    let mut i: usize = 0;
    while i < infos.len()
        invariant
            i <= infos.len(),
            out@ == merge_records(old(out)@, infos@.take(i as int), kind),
        decreases infos.len() - i,
    {
        let info = infos[i];
        let ghost before = out@;
        assert(infos@.take(i + 1).drop_last() =~= infos@.take(i as int));
        assert(infos@.take(i + 1).last() == info);
        if info.pid != 0 {
            let mem: u64 = if info.used_gpu_memory == u64::MAX {
                0
            } else {
                info.used_gpu_memory
            };
            match find_pid(out, info.pid) {
                Some(k) => {
                    let old_mem = out[k].1;
                    let new_mem = if old_mem >= mem {
                        old_mem
                    } else {
                        mem
                    };
                    out.set(k, (info.pid, new_mem, ProcessKind::ComputeGraphics));
                },
                None => {
                    out.push((info.pid, mem, kind));
                },
            }
        }
        assert(out@ =~= merge_record(before, info, kind));
        i = i + 1;
    }
    assert(infos@.take(infos.len() as int) =~= infos@);
}

/// The raw outcome of the second phase of an NVML process query.
pub struct ProcessQuery {
    /// Status of the call that filled `records`.
    pub status: u32,
    /// Number of valid records NVML reported.
    pub count: u32,
    /// The record buffer handed to NVML.
    pub records: Vec<NvmlProcessInfo>,
}

/// The records NVML filled in: the first `count` of the buffer.
pub open spec fn query_records(q: ProcessQuery) -> Seq<NvmlProcessInfo> {
    q.records@.take(
        if q.count as int <= q.records@.len() {
            q.count as int
        } else {
            q.records@.len() as int
        },
    )
}

/// Whether NVML accepted the query (success, or "buffer too small" with the
/// count still set).
pub open spec fn query_accepted(q: ProcessQuery) -> bool {
    q.status == NVML_SUCCESS || q.status == NVML_ERROR_INSUFFICIENT_SIZE
}

/// Folds one query's records into `out`; a rejected query adds nothing.
pub fn collect_procs(out: &mut Vec<ProcEntry>, query: &ProcessQuery, kind: ProcessKind)
    ensures
        query_accepted(*query) ==> final(out)@ == merge_records(
            old(out)@,
            query_records(*query),
            kind,
        ),
        !query_accepted(*query) ==> final(out)@ == old(out)@,
{
    if query.status != NVML_SUCCESS && query.status != NVML_ERROR_INSUFFICIENT_SIZE {
        return;
    }
    let n: usize = if (query.count as usize) <= query.records.len() {
        query.count as usize
    } else {
        query.records.len()
    };
    let taken = query.records.as_slice().split_at(n).0;
    assert(taken@ =~= query_records(*query));
    merge_process_records(out, taken, kind);
}

/// The entries of one device: compute processes first, then graphics ones.
pub open spec fn running_entries(compute: Option<ProcessQuery>, graphics: Option<ProcessQuery>) -> Seq<
    ProcEntry,
> {
    let after_compute = match compute {
        Some(q) => if query_accepted(q) {
            merge_records(Seq::empty(), query_records(q), ProcessKind::Compute)
        } else {
            Seq::empty()
        },
        None => Seq::empty(),
    };
    match graphics {
        Some(q) => if query_accepted(q) {
            merge_records(after_compute, query_records(q), ProcessKind::Graphics)
        } else {
            after_compute
        },
        None => after_compute,
    }
}

/// Running compute/graphics processes of one device, from the two NVML queries
/// (`None` where the query function is absent or reported no process).
pub fn running_processes(compute: Option<ProcessQuery>, graphics: Option<ProcessQuery>) -> (r: Vec<
    ProcEntry,
>)
    ensures
        r@ == running_entries(compute, graphics),
{
    let mut out: Vec<ProcEntry> = Vec::new();
    match &compute {
        Some(q) => collect_procs(&mut out, q, ProcessKind::Compute),
        None => {},
    }
    match &graphics {
        Some(q) => collect_procs(&mut out, q, ProcessKind::Graphics),
        None => {},
    }
    out
}

} // verus!

verus! {

/// No two entries share a pid.
pub open spec fn unique_pids(s: Seq<ProcEntry>) -> bool {
    forall|i: int, j: int| 0 <= i < j < s.len() ==> s[i].0 != s[j].0
}

/// No entry has pid 0.
pub open spec fn no_zero_pid(s: Seq<ProcEntry>) -> bool {
    forall|i: int| 0 <= i < s.len() ==> s[i].0 != 0
}

/// Some entry has pid `p`.
pub open spec fn has_pid(s: Seq<ProcEntry>, p: u32) -> bool {
    exists|i: int| 0 <= i < s.len() && s[i].0 == p
}

/// Some record reports pid `p`.
pub open spec fn reports_pid(infos: Seq<NvmlProcessInfo>, p: u32) -> bool {
    exists|j: int| 0 <= j < infos.len() && infos[j].pid == p
}

proof fn lemma_merge_record_step(out: Seq<ProcEntry>, info: NvmlProcessInfo, kind: ProcessKind)
    ensures
        unique_pids(out) ==> unique_pids(merge_record(out, info, kind)),
        no_zero_pid(out) ==> no_zero_pid(merge_record(out, info, kind)),
        forall|p: u32|
            has_pid(merge_record(out, info, kind), p) <==> (has_pid(out, p) || (p != 0 && p
                == info.pid)),
{
    lemma_pid_index(out, info.pid);
    let r = merge_record(out, info, kind);
    if info.pid != 0 {
        let k = pid_index(out, info.pid);
        if k >= 0 {
            assert(r.len() == out.len());
            assert forall|i: int| 0 <= i < r.len() implies r[i].0 == out[i].0 by {}
            assert forall|p: u32| has_pid(r, p) <==> (has_pid(out, p) || (p != 0 && p == info.pid)) by {
                if has_pid(out, p) {
                    let i = choose|i: int| 0 <= i < out.len() && out[i].0 == p;
                    assert(r[i].0 == p);
                }
                if p == info.pid {
                    assert(r[k].0 == p);
                }
                if has_pid(r, p) {
                    let i = choose|i: int| 0 <= i < r.len() && r[i].0 == p;
                    assert(out[i].0 == p);
                }
            }
        } else {
            assert(r.len() == out.len() + 1);
            assert forall|i: int| 0 <= i < out.len() implies r[i] == out[i] by {}
            assert(r[out.len() as int].0 == info.pid);
            assert forall|p: u32| has_pid(r, p) <==> (has_pid(out, p) || (p != 0 && p == info.pid)) by {
                if has_pid(out, p) {
                    let i = choose|i: int| 0 <= i < out.len() && out[i].0 == p;
                    assert(r[i].0 == p);
                }
                if p == info.pid {
                    assert(r[out.len() as int].0 == p);
                }
                if has_pid(r, p) {
                    let i = choose|i: int| 0 <= i < r.len() && r[i].0 == p;
                    if i < out.len() {
                        assert(out[i].0 == p);
                    }
                }
            }
        }
    } else {
        assert forall|p: u32| has_pid(r, p) <==> (has_pid(out, p) || (p != 0 && p == info.pid)) by {}
    }
}

/// Law: folding NVML records never lets two entries share a pid and never
/// records pid 0, and the pids present afterwards are exactly those present
/// before plus every non-zero pid the records report.
pub proof fn law_merge_records(out: Seq<ProcEntry>, infos: Seq<NvmlProcessInfo>, kind: ProcessKind)
    ensures
        unique_pids(out) ==> unique_pids(merge_records(out, infos, kind)),
        no_zero_pid(out) ==> no_zero_pid(merge_records(out, infos, kind)),
        forall|p: u32|
            has_pid(merge_records(out, infos, kind), p) <==> (has_pid(out, p) || (p != 0
                && reports_pid(infos, p))),
    decreases infos.len(),
{
    if infos.len() > 0 {
        let prefix = infos.drop_last();
        law_merge_records(out, prefix, kind);
        let mid = merge_records(out, prefix, kind);
        lemma_merge_record_step(mid, infos.last(), kind);
        assert forall|p: u32|
            has_pid(merge_records(out, infos, kind), p) <==> (has_pid(out, p) || (p != 0
                && reports_pid(infos, p))) by {
            if reports_pid(prefix, p) {
                let j = choose|j: int| 0 <= j < prefix.len() && prefix[j].pid == p;
                assert(infos[j].pid == p);
            }
            if reports_pid(infos, p) {
                let j = choose|j: int| 0 <= j < infos.len() && infos[j].pid == p;
                if j < prefix.len() {
                    assert(prefix[j].pid == p);
                }
            }
        }
    }
}

/// Law: the process list of one device has one entry per pid, none for pid 0,
/// and lists exactly the non-zero pids that the accepted queries report.
pub proof fn law_running_processes(compute: Option<ProcessQuery>, graphics: Option<ProcessQuery>)
    ensures
        unique_pids(running_entries(compute, graphics)),
        no_zero_pid(running_entries(compute, graphics)),
        forall|p: u32|
            has_pid(running_entries(compute, graphics), p) <==> p != 0 && ((compute matches Some(
                q,
            ) && query_accepted(q) && reports_pid(query_records(q), p)) || (graphics matches Some(
                q,
            ) && query_accepted(q) && reports_pid(query_records(q), p))),
{
    let e: Seq<ProcEntry> = Seq::empty();
    let after_compute = match compute {
        Some(q) => if query_accepted(q) {
            merge_records(e, query_records(q), ProcessKind::Compute)
        } else {
            e
        },
        None => e,
    };
    match compute {
        Some(q) => {
            law_merge_records(e, query_records(q), ProcessKind::Compute);
        },
        None => {},
    }
    match graphics {
        Some(q) => {
            law_merge_records(after_compute, query_records(q), ProcessKind::Graphics);
        },
        None => {},
    }
}

} // verus!

verus! {

/// Every non-zero pid that `infos` reports has an entry in `s` holding at least
/// the memory each of its reports shows.
pub open spec fn covers_reports(s: Seq<ProcEntry>, infos: Seq<NvmlProcessInfo>) -> bool {
    forall|j: int|
        #![trigger infos[j]]
        0 <= j < infos.len() && infos[j].pid != 0 ==> pid_index(s, infos[j].pid) >= 0 && s[pid_index(
            s,
            infos[j].pid,
        )].1 >= reported_memory(infos[j].used_gpu_memory)
}

/// Every entry of `a` has an entry with its pid in `b` holding at least as much memory.
pub open spec fn dominated_by(a: Seq<ProcEntry>, b: Seq<ProcEntry>) -> bool {
    forall|i: int|
        #![trigger a[i]]
        0 <= i < a.len() ==> pid_index(b, a[i].0) >= 0 && b[pid_index(b, a[i].0)].1 >= a[i].1
}

/// Extending or updating entries in place keeps where each known pid is found.
proof fn lemma_pid_index_prefix(a: Seq<ProcEntry>, b: Seq<ProcEntry>, p: u32)
    requires
        a.len() <= b.len(),
        forall|j: int| 0 <= j < a.len() ==> b[j].0 == a[j].0,
        pid_index(a, p) >= 0,
    ensures
        pid_index(b, p) == pid_index(a, p),
{
    lemma_pid_index(a, p);
    lemma_pid_index(b, p);
    let k = pid_index(a, p);
    assert(b[k].0 == p);
    if pid_index(b, p) < k {
        let m = pid_index(b, p);
        if m >= 0 {
            assert(a[m].0 == p);
        }
    }
}

proof fn lemma_merge_record_dominates(out: Seq<ProcEntry>, info: NvmlProcessInfo, kind: ProcessKind)
    ensures
        forall|i: int| 0 <= i < out.len() ==> merge_record(out, info, kind)[i].0 == out[i].0,
        forall|i: int| 0 <= i < out.len() ==> merge_record(out, info, kind)[i].1 >= out[i].1,
        out.len() <= merge_record(out, info, kind).len(),
        info.pid != 0 ==> pid_index(merge_record(out, info, kind), info.pid) >= 0 && merge_record(
            out,
            info,
            kind,
        )[pid_index(merge_record(out, info, kind), info.pid)].1 >= reported_memory(
            info.used_gpu_memory,
        ),
{
    lemma_pid_index(out, info.pid);
    let r = merge_record(out, info, kind);
    if info.pid != 0 {
        let k = pid_index(out, info.pid);
        if k >= 0 {
            lemma_pid_index_prefix(out, r, info.pid);
        } else {
            lemma_pid_index(r, info.pid);
            assert(r[out.len() as int].0 == info.pid);
            assert(pid_index(r, info.pid) == out.len()) by {
                if pid_index(r, info.pid) < out.len() {
                    let m = pid_index(r, info.pid);
                    if m >= 0 {
                        assert(out[m].0 == info.pid);
                    }
                }
            }
        }
    }
}

proof fn lemma_dominated_step(a: Seq<ProcEntry>, b: Seq<ProcEntry>, c: Seq<ProcEntry>)
    requires
        dominated_by(a, b),
        b.len() <= c.len(),
        forall|i: int| 0 <= i < b.len() ==> c[i].0 == b[i].0,
        forall|i: int| 0 <= i < b.len() ==> c[i].1 >= b[i].1,
    ensures
        dominated_by(a, c),
{
    assert forall|i: int| #![trigger a[i]] 0 <= i < a.len() implies pid_index(c, a[i].0) >= 0
        && c[pid_index(c, a[i].0)].1 >= a[i].1 by {
        lemma_pid_index(b, a[i].0);
        lemma_pid_index_prefix(b, c, a[i].0);
    }
}

/// Law: after folding, every record's pid has an entry whose memory is at least
/// what that record reported, and no entry present before lost memory
/// (for entries that start with distinct pids).
pub proof fn law_merge_records_memory(
    out: Seq<ProcEntry>,
    infos: Seq<NvmlProcessInfo>,
    kind: ProcessKind,
)
    requires
        unique_pids(out),
    ensures
        covers_reports(merge_records(out, infos, kind), infos),
        dominated_by(out, merge_records(out, infos, kind)),
    decreases infos.len(),
{
    if infos.len() == 0 {
        assert forall|i: int| #![trigger out[i]] 0 <= i < out.len() implies pid_index(out, out[i].0)
            >= 0 && out[pid_index(out, out[i].0)].1 >= out[i].1 by {
            lemma_pid_index(out, out[i].0);
            let k = pid_index(out, out[i].0);
            if k != i {
                assert(out[k].0 == out[i].0);
            }
        }
    } else {
        let prefix = infos.drop_last();
        law_merge_records_memory(out, prefix, kind);
        let mid = merge_records(out, prefix, kind);
        let r = merge_records(out, infos, kind);
        lemma_merge_record_dominates(mid, infos.last(), kind);
        lemma_dominated_step(out, mid, r);
        assert forall|j: int| #![trigger infos[j]] 0 <= j < infos.len() && infos[j].pid != 0 implies pid_index(
            r,
            infos[j].pid,
        ) >= 0 && r[pid_index(r, infos[j].pid)].1 >= reported_memory(infos[j].used_gpu_memory) by {
            if j < prefix.len() {
                assert(prefix[j] == infos[j]);
                lemma_pid_index(mid, infos[j].pid);
                lemma_pid_index_prefix(mid, r, infos[j].pid);
            }
        }
    }
}

/// The names of the NVML architecture codes 2 (Kepler) through 10 (Blackwell).
pub open spec fn nvml_arch_names() -> Seq<Seq<char>> {
    seq![
        "Kepler"@,
        "Maxwell"@,
        "Pascal"@,
        "Volta"@,
        "Turing"@,
        "Ampere"@,
        "Ada"@,
        "Hopper"@,
        "Blackwell"@,
    ]
}

/// Law: each NVML architecture code from 2 (Kepler) to 10 (Blackwell) has its
/// own name, in the order NVML numbers them; distinct known codes have
/// distinct names, none of which is the fallback `NVIDIA` that every other
/// code gets.
pub proof fn law_arch_names_distinct(a: u32, b: u32)
    ensures
        2 <= a <= 10 ==> arch_label(a) == nvml_arch_names()[a - 2],
        2 <= a <= 10 && 2 <= b <= 10 && arch_label(a) == arch_label(b) ==> a == b,
        2 <= a <= 10 ==> arch_label(a) != "NVIDIA"@,
        !(2 <= a <= 10) ==> arch_label(a) == "NVIDIA"@,
{
    reveal_strlit("Kepler");
    reveal_strlit("Maxwell");
    reveal_strlit("Pascal");
    reveal_strlit("Volta");
    reveal_strlit("Turing");
    reveal_strlit("Ampere");
    reveal_strlit("Ada");
    reveal_strlit("Hopper");
    reveal_strlit("Blackwell");
    reveal_strlit("NVIDIA");
    let names = nvml_arch_names();
    assert forall|x: u32, y: u32|
        2 <= x <= 10 && 2 <= y <= 10 && x != y implies #[trigger] arch_label(x) != #[trigger] arch_label(
            y,
        ) by {
        let lx = arch_label(x);
        let ly = arch_label(y);
        if lx.len() == ly.len() {
            assert(lx[0] != ly[0]);
        }
    }
    if 2 <= a <= 10 {
        let la = arch_label(a);
        assert(la.len() != "NVIDIA"@.len() || la[1] != "NVIDIA"@[1]);
    }
}

} // verus!
