//! Vendor filtering for the metrics collector: which backends' devices are
//! collected, how many there are, and the backend summary line.

use vstd::prelude::*;

use crate::device::{vendor_label, Vendor};
use crate::dynlib::join;
use crate::text::{decimal, push_char, push_decimal, push_str};

verus! {

/// Which vendors to include when collecting snapshots.
#[derive(Debug, Clone, Copy)]
pub struct VendorFilter {
    /// Include NVIDIA devices.
    pub nvidia: bool,
    /// Include AMD devices.
    pub amd: bool,
    /// Include Intel devices.
    pub intel: bool,
}

/// Whether the filter lets devices of `v` through.
pub open spec fn allows_spec(f: VendorFilter, v: Vendor) -> bool {
    match v {
        Vendor::Nvidia => f.nvidia,
        Vendor::Amd => f.amd,
        Vendor::Intel => f.intel,
    }
}

/// Whether the filter enables any vendor.
pub open spec fn enables_any(f: VendorFilter) -> bool {
    f.nvidia || f.amd || f.intel
}

impl VendorFilter {
    /// Enable every vendor.
    pub fn all() -> (r: Self)
        ensures
            r.nvidia && r.amd && r.intel,
    {
        VendorFilter { nvidia: true, amd: true, intel: true }
    }

    /// Whether devices of `vendor` are collected.
    pub fn allows(self, vendor: Vendor) -> (r: bool)
        ensures
            r == allows_spec(self, vendor),
    {
        match vendor {
            Vendor::Nvidia => self.nvidia,
            Vendor::Amd => self.amd,
            Vendor::Intel => self.intel,
        }
    }

    /// Whether any vendor is enabled.
    pub fn any(self) -> (r: bool)
        ensures
            r == (self.nvidia || self.amd || self.intel),
    {
        self.nvidia || self.amd || self.intel
    }
}

/// Why the collector could not start.
#[derive(Debug, Clone, Copy, PartialEq, Eq, Structural)]
pub enum CollectorInitError {
    /// The filter enables no vendor ("no GPU vendors enabled in filter").
    NoVendorsEnabled,
    /// No device of an enabled vendor was discovered.
    NoMatchingDevices,
}

/// Total devices of the allowed backends.
pub open spec fn allowed_devices(f: VendorFilter, backends: Seq<(Vendor, usize)>) -> nat
    decreases backends.len(),
{
    if backends.len() == 0 {
        0
    } else {
        allowed_devices(f, backends.drop_last()) + if allows_spec(f, backends.last().0) {
            backends.last().1 as nat
        } else {
            0
        }
    }
}

/// The number of devices the collector will report, from each discovered
/// backend's vendor and device count.
pub fn matching_device_count(filter: VendorFilter, backends: &[(Vendor, usize)]) -> (r: Result<
    usize,
    CollectorInitError,
>)
    requires
        allowed_devices(filter, backends@) <= usize::MAX,
    ensures
        !enables_any(filter) ==> r == Err::<usize, CollectorInitError>(
            CollectorInitError::NoVendorsEnabled,
        ),
        enables_any(filter) && allowed_devices(filter, backends@) == 0 ==> r == Err::<
            usize,
            CollectorInitError,
        >(CollectorInitError::NoMatchingDevices),
        enables_any(filter) && allowed_devices(filter, backends@) > 0 ==> r == Ok::<
            usize,
            CollectorInitError,
        >(allowed_devices(filter, backends@) as usize),
{
    if !filter.any() {
        return Err(CollectorInitError::NoVendorsEnabled);
    }
    let mut count: usize = 0;
    let mut i: usize = 0;
    while i < backends.len()
        invariant
            i <= backends.len(),
            count == allowed_devices(filter, backends@.take(i as int)),
            allowed_devices(filter, backends@) <= usize::MAX,
        decreases backends.len() - i,
    {
        assert(backends@.take(i + 1).drop_last() =~= backends@.take(i as int));
        proof {
            lemma_allowed_devices_prefix(filter, backends@, i as int + 1);
        }
        let (v, n) = backends[i];
        if filter.allows(v) {
            count = count + n;
        }
        i = i + 1;
    }
    assert(backends@.take(backends.len() as int) =~= backends@);
    if count == 0 {
        Err(CollectorInitError::NoMatchingDevices)
    } else {
        Ok(count)
    }
}

/// The device total of a prefix never exceeds that of the whole list.
pub proof fn lemma_allowed_devices_prefix(f: VendorFilter, bs: Seq<(Vendor, usize)>, k: int)
    requires
        0 <= k <= bs.len(),
    ensures
        allowed_devices(f, bs.take(k)) <= allowed_devices(f, bs),
    decreases bs.len(),
{
    if k < bs.len() {
        assert(bs.drop_last().take(k) =~= bs.take(k));
        lemma_allowed_devices_prefix(f, bs.drop_last(), k);
    } else {
        assert(bs.take(k) =~= bs);
    }
}

/// The `vendor:count` parts of the allowed backends, in order.
pub open spec fn summary_parts(f: VendorFilter, backends: Seq<(Vendor, usize)>) -> Seq<Seq<char>>
    decreases backends.len(),
{
    if backends.len() == 0 {
        Seq::empty()
    } else {
        let rest = summary_parts(f, backends.drop_last());
        let b = backends.last();
        if allows_spec(f, b.0) {
            rest.push(vendor_label(b.0) + ":"@ + decimal(b.1 as nat))
        } else {
            rest
        }
    }
}

/// Compact summary of loaded backends, e.g. `nvidia:1 amd:2`.
pub fn backend_summary(filter: VendorFilter, backends: &[(Vendor, usize)]) -> (r: String)
    ensures
        r@ == join(summary_parts(filter, backends@), " "@),
{
    let mut out = String::new();
    let mut wrote_any = false;
    let mut i: usize = 0;
    while i < backends.len()
        invariant
            i <= backends.len(),
            out@ == join(summary_parts(filter, backends@.take(i as int)), " "@),
            wrote_any == (summary_parts(filter, backends@.take(i as int)).len() > 0),
        decreases backends.len() - i,
    {
        let ghost before = summary_parts(filter, backends@.take(i as int));
        assert(backends@.take(i + 1).drop_last() =~= backends@.take(i as int));
        let (v, n) = backends[i];
        if filter.allows(v) {
            if wrote_any {
                push_char(&mut out, ' ');
            }
            wrote_any = true;
            push_str(&mut out, v.as_str());
            push_char(&mut out, ':');
            push_decimal(&mut out, n as u64);
            let ghost parts = summary_parts(filter, backends@.take(i + 1));
            proof {
                reveal_strlit(" ");
                reveal_strlit(":");
                assert(parts.drop_last() == before);
                if before.len() == 0 {
                    assert(parts.len() == 1);
                }
            }
            assert(out@ =~= join(parts, " "@));
        }
        i = i + 1;
    }
    assert(backends@.take(backends.len() as int) =~= backends@);
    out
}


/// The `(vendor, device id)` of each device of one backend whose snapshot
/// could be taken, in device order.
pub open spec fn backend_entries(v: Vendor, available: Seq<bool>) -> Seq<(Vendor, usize)>
    decreases available.len(),
{
    if available.len() == 0 {
        Seq::empty()
    } else {
        let prev = backend_entries(v, available.drop_last());
        if available.last() {
            prev.push((v, (available.len() - 1) as usize))
        } else {
            prev
        }
    }
}

/// The devices a collection reports, in order: the devices with a snapshot
/// of each backend the filter allows, backend after backend.
pub open spec fn planned_devices(f: VendorFilter, backends: Seq<(Vendor, Vec<bool>)>) -> Seq<
    (Vendor, usize),
>
    decreases backends.len(),
{
    if backends.len() == 0 {
        Seq::empty()
    } else {
        let b = backends.last();
        planned_devices(f, backends.drop_last()) + if allows_spec(f, b.0) {
            backend_entries(b.0, b.1@)
        } else {
            Seq::empty()
        }
    }
}

/// Each planned device with its global index: its position in the plan.
pub open spec fn with_global_index(s: Seq<(Vendor, usize)>) -> Seq<(u32, Vendor, usize)> {
    Seq::new(s.len(), |k: int| (k as u32, s[k].0, s[k].1))
}

/// A prefix of a backend's availability list yields no more entries.
pub proof fn lemma_backend_entries_prefix(v: Vendor, a: Seq<bool>, k: int)
    requires
        0 <= k <= a.len(),
    ensures
        backend_entries(v, a.take(k)).len() <= backend_entries(v, a).len(),
    decreases a.len(),
{
    if k < a.len() {
        assert(a.drop_last().take(k) =~= a.take(k));
        lemma_backend_entries_prefix(v, a.drop_last(), k);
    } else {
        assert(a.take(k) =~= a);
    }
}

/// A prefix of the backend list plans no more devices.
pub proof fn lemma_planned_devices_prefix(f: VendorFilter, bs: Seq<(Vendor, Vec<bool>)>, k: int)
    requires
        0 <= k <= bs.len(),
    ensures
        planned_devices(f, bs.take(k)).len() <= planned_devices(f, bs).len(),
    decreases bs.len(),
{
    if k < bs.len() {
        assert(bs.drop_last().take(k) =~= bs.take(k));
        lemma_planned_devices_prefix(f, bs.drop_last(), k);
    } else {
        assert(bs.take(k) =~= bs);
    }
}

/// The snapshots one collection takes, from each discovered backend's vendor
/// and, per device, whether its snapshot could be taken: for each reported
/// device its global index (counting reported devices only, from 0), vendor
/// and device id within its backend.
pub fn snapshot_plan(filter: VendorFilter, backends: &[(Vendor, Vec<bool>)]) -> (r: Vec<
    (u32, Vendor, usize),
>)
    requires
        planned_devices(filter, backends@).len() <= u32::MAX,
    ensures
        r@ == with_global_index(planned_devices(filter, backends@)),
{
    let mut out: Vec<(u32, Vendor, usize)> = Vec::new();
    let mut i: usize = 0;
    while i < backends.len()
        invariant
            i <= backends.len(),
            out@ == with_global_index(planned_devices(filter, backends@.take(i as int))),
            planned_devices(filter, backends@).len() <= u32::MAX,
        decreases backends.len() - i,
    {
        let ghost before = planned_devices(filter, backends@.take(i as int));
        assert(backends@.take(i + 1).drop_last() =~= backends@.take(i as int));
        proof {
            lemma_planned_devices_prefix(filter, backends@, i + 1);
        }
        let v = backends[i].0;
        let available = &backends[i].1;
        if filter.allows(v) {
            let mut j: usize = 0;
            while j < available.len()
                invariant
                    j <= available@.len(),
                    available@ == backends@[i as int].1@,
                    v == backends@[i as int].0,
                    allows_spec(filter, v),
                    before == planned_devices(filter, backends@.take(i as int)),
                    before + backend_entries(v, available@) == planned_devices(
                        filter,
                        backends@.take(i + 1),
                    ),
                    planned_devices(filter, backends@.take(i + 1)).len() <= u32::MAX,
                    out@ == with_global_index(before + backend_entries(v, available@.take(j as int))),
                decreases available@.len() - j,
            {
                assert(available@.take(j + 1).drop_last() =~= available@.take(j as int));
                proof {
                    lemma_backend_entries_prefix(v, available@, j + 1);
                }
                if available[j] {
                    let ghost prev = before + backend_entries(v, available@.take(j as int));
                    let idx = out.len() as u32;
                    out.push((idx, v, j));
                    let ghost next = before + backend_entries(v, available@.take(j + 1));
                    assert(next =~= prev.push((v, j)));
                    assert(out@ =~= with_global_index(next));
                } else {
                    assert(before + backend_entries(v, available@.take(j + 1)) =~= before
                        + backend_entries(v, available@.take(j as int)));
                }
                j = j + 1;
            }
            assert(available@.take(available@.len() as int) =~= available@);
        } else {
            assert(planned_devices(filter, backends@.take(i + 1)) =~= before);
        }
        i = i + 1;
    }
    assert(backends@.take(backends.len() as int) =~= backends@);
    out
}

/// Free memory reported with a snapshot: total minus used (0 when used
/// exceeds total), when both are known.
pub fn memory_free(total: Option<u64>, used: Option<u64>) -> (r: Option<u64>)
    ensures
        r == match (total, used) {
            (Some(t), Some(u)) => Some(if u <= t {
                (t - u) as u64
            } else {
                0u64
            }),
            _ => None::<u64>,
        },
{
    match (total, used) {
        (Some(t), Some(u)) => Some(t.saturating_sub(u)),
        _ => None,
    }
}

/// The vendor filter and whether system metrics are collected, for the
/// export command's `--nvidia`, `--amd`, `--system` and `--all` flags.
pub open spec fn export_selection_spec(nvidia: bool, amd: bool, system: bool, all: bool) -> (
    VendorFilter,
    bool,
) {
    if all || (!nvidia && !amd && !system) {
        (VendorFilter { nvidia: true, amd: true, intel: true }, true)
    } else {
        (VendorFilter { nvidia, amd, intel: false }, system)
    }
}

/// What the export command collects: everything with `--all` or with no flag
/// at all; otherwise the selected GPU vendors (never Intel) and, with
/// `--system`, system metrics.
pub fn export_selection(nvidia: bool, amd: bool, system: bool, all: bool) -> (r: (VendorFilter, bool))
    ensures
        r == export_selection_spec(nvidia, amd, system, all),
{
    if all || (!nvidia && !amd && !system) {
        (VendorFilter::all(), true)
    } else {
        (VendorFilter { nvidia, amd, intel: false }, system)
    }
}

} // verus!

verus! {

/// Law: the filter enabling every vendor lets every vendor through, and a
/// filter enables something exactly when it lets some vendor through.
pub proof fn law_vendor_filter(f: VendorFilter, v: Vendor)
    ensures
        allows_spec(VendorFilter { nvidia: true, amd: true, intel: true }, v),
        enables_any(f) <==> (allows_spec(f, Vendor::Nvidia) || allows_spec(f, Vendor::Amd)
            || allows_spec(f, Vendor::Intel)),
        allows_spec(f, v) ==> enables_any(f),
{
}

/// Law: backends of vendors the filter rejects contribute no device and no
/// summary entry.
pub proof fn law_rejected_backend_ignored(f: VendorFilter, bs: Seq<(Vendor, usize)>, b: (Vendor, usize))
    requires
        !allows_spec(f, b.0),
    ensures
        allowed_devices(f, bs.push(b)) == allowed_devices(f, bs),
        summary_parts(f, bs.push(b)) == summary_parts(f, bs),
{
    assert(bs.push(b).drop_last() =~= bs);
}

/// Every entry of a backend's list carries the backend's vendor.
proof fn lemma_backend_entries_vendor(v: Vendor, a: Seq<bool>)
    ensures
        forall|k: int| 0 <= k < backend_entries(v, a).len() ==> #[trigger] backend_entries(v, a)[k].0 == v,
    decreases a.len(),
{
    if a.len() > 0 {
        lemma_backend_entries_vendor(v, a.drop_last());
    }
}

/// Law: a collection reports only devices of vendors the filter allows, and
/// each of them under its position in the collection as global index.
pub proof fn law_collection_matches_filter(f: VendorFilter, bs: Seq<(Vendor, Vec<bool>)>)
    ensures
        forall|k: int|
            0 <= k < planned_devices(f, bs).len() ==> allows_spec(
                f,
                #[trigger] planned_devices(f, bs)[k].0,
            ),
        planned_devices(f, bs).len() <= u32::MAX ==> forall|k: int|
            0 <= k < planned_devices(f, bs).len() ==> #[trigger] with_global_index(
                planned_devices(f, bs),
            )[k].0 == k,
    decreases bs.len(),
{
    if bs.len() > 0 {
        law_collection_matches_filter(f, bs.drop_last());
        let b = bs.last();
        lemma_backend_entries_vendor(b.0, b.1@);
        let prev = planned_devices(f, bs.drop_last());
        let all = planned_devices(f, bs);
        assert forall|k: int| 0 <= k < all.len() implies allows_spec(f, #[trigger] all[k].0) by {
            if k >= prev.len() {
                assert(all[k] == backend_entries(b.0, b.1@)[k - prev.len()]);
            }
        }
    }
}

/// Law: the export command collects everything with `--all` or with no flag;
/// otherwise it collects exactly the GPU vendors whose flags were given (never
/// Intel, which has no flag) and system metrics exactly with `--system`.
pub proof fn law_export_flags(nvidia: bool, amd: bool, system: bool, all: bool)
    ensures
        ({
            let (f, sys) = export_selection_spec(nvidia, amd, system, all);
            &&& all ==> f.nvidia && f.amd && f.intel && sys
            &&& !nvidia && !amd && !system ==> f.nvidia && f.amd && f.intel && sys
            &&& !all && (nvidia || amd || system) ==> f.nvidia == nvidia && f.amd == amd
                && !f.intel && sys == system
        }),
{
}

} // verus!
