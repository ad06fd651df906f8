//! Shared device identity types.

use vstd::prelude::*;

verus! {

/// GPU vendor identity.
#[derive(Debug, Clone, Copy, PartialEq, Eq, Hash, Structural)]
#[non_exhaustive]
pub enum Vendor {
    /// NVIDIA (NVML / `libnvidia-ml`).
    Nvidia,
    /// AMD (AMD SMI / `libamd_smi`).
    Amd,
    /// Intel (Level Zero Sysman / `libze_loader`).
    Intel,
}

/// The stable lowercase label of a vendor.
pub open spec fn vendor_label(v: Vendor) -> Seq<char> {
    match v {
        Vendor::Nvidia => "nvidia"@,
        Vendor::Amd => "amd"@,
        Vendor::Intel => "intel"@,
    }
}

impl Vendor {
    /// Stable lowercase string used in logs and labels.
    pub fn as_str(self) -> (r: &'static str)
        ensures
            r@ == vendor_label(self),
    {
        match self {
            Vendor::Nvidia => "nvidia",
            Vendor::Amd => "amd",
            Vendor::Intel => "intel",
        }
    }
}

/// Static identity for a single GPU device.
#[derive(Debug, Clone, PartialEq, Eq)]
pub struct GpuDevice {
    /// Vendor that owns this device.
    pub vendor: Vendor,
    /// Zero-based index within the vendor backend.
    pub index: usize,
    /// Vendor-provided UUID, or a synthetic fallback.
    pub uuid: String,
    /// PCI bus id (e.g. `00000000:01:00.0`), empty if unavailable.
    pub pci_bus_id: String,
    /// Marketing / product name.
    pub model: String,
    /// Architecture string when the vendor exposes one; otherwise empty.
    pub architecture: String,
    /// Total device memory in bytes, when known.
    pub memory_total: Option<u64>,
    /// Board serial number when known.
    pub serial: Option<String>,
}

impl GpuDevice {
    /// Build a device with only the required identity fields filled in.
    pub fn new(vendor: Vendor, index: usize, uuid: String, model: String) -> (r: Self)
        ensures
            r.vendor == vendor,
            r.index == index,
            r.uuid@ == uuid@,
            r.model@ == model@,
            r.pci_bus_id@ == Seq::<char>::empty(),
            r.architecture@ == Seq::<char>::empty(),
            r.memory_total.is_none(),
            r.serial.is_none(),
    {
        GpuDevice {
            vendor,
            index,
            uuid,
            pci_bus_id: String::new(),
            model,
            architecture: String::new(),
            memory_total: None,
            serial: None,
        }
    }
}

} // verus!

verus! {

/// Law: distinct vendors have distinct labels, so a label identifies its vendor.
pub proof fn law_vendor_labels_distinct(a: Vendor, b: Vendor)
    ensures
        vendor_label(a) == vendor_label(b) ==> a == b,
{
    reveal_strlit("nvidia");
    reveal_strlit("amd");
    reveal_strlit("intel");
    if a != b {
        match (a, b) {
            (Vendor::Nvidia, Vendor::Amd) | (Vendor::Amd, Vendor::Nvidia) => {
                assert(vendor_label(a).len() != vendor_label(b).len());
            },
            (Vendor::Nvidia, Vendor::Intel) | (Vendor::Intel, Vendor::Nvidia) => {
                assert(vendor_label(a)[0] != vendor_label(b)[0]);
            },
            (Vendor::Amd, Vendor::Intel) | (Vendor::Intel, Vendor::Amd) => {
                assert(vendor_label(a).len() != vendor_label(b).len());
            },
            _ => {},
        }
    }
}

} // verus!
