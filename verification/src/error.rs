//! Errors produced while loading vendor libraries and querying devices.

use vstd::prelude::*;

use crate::text::push_str;

verus! {

/// Errors produced by the GPU layer.
///
/// Library and symbol failures are expected on CPU-only hosts; callers treat
/// [`GpuError::LibraryNotFound`] and [`GpuError::MissingSymbol`] as soft failures.
#[derive(Debug, Clone)]
pub enum GpuError {
    /// None of the candidate shared library names could be opened.
    LibraryNotFound {
        /// Comma-separated list of paths/sonames that were attempted.
        candidates: String,
    },
    /// A required symbol could not be resolved.
    MissingSymbol {
        /// Symbol name that failed to resolve.
        name: String,
        /// Library that was loaded.
        library: String,
    },
    /// The vendor API initialized but returned a failure status.
    InitializationFailed(String),
    /// A per-device query failed.
    DeviceQueryFailed(String),
    /// The requested operation is not supported on this backend/device.
    Unsupported(String),
    /// Catch-all for unexpected failures.
    Unknown(String),
}

impl GpuError {
    /// The human-readable text of the error.
    pub open spec fn message_spec(self) -> Seq<char> {
        match self {
            GpuError::LibraryNotFound { candidates } => "GPU library not found (tried: "@
                + candidates@ + ")"@,
            GpuError::MissingSymbol { name, library } => "missing symbol `"@ + name@ + "` in "@
                + library@,
            GpuError::InitializationFailed(s) => "GPU initialization failed: "@ + s@,
            GpuError::DeviceQueryFailed(s) => "device query failed: "@ + s@,
            GpuError::Unsupported(s) => "unsupported: "@ + s@,
            GpuError::Unknown(s) => "unknown GPU error: "@ + s@,
        }
    }

    /// Renders the error as text (what `Display` prints).
    pub fn message(&self) -> (r: String)
        ensures
            r@ == self.message_spec(),
    {
        let mut out = String::new();
        match self {
            GpuError::LibraryNotFound { candidates } => {
                push_str(&mut out, "GPU library not found (tried: ");
                push_str(&mut out, candidates.as_str());
                push_str(&mut out, ")");
            },
            GpuError::MissingSymbol { name, library } => {
                push_str(&mut out, "missing symbol `");
                push_str(&mut out, name.as_str());
                push_str(&mut out, "` in ");
                push_str(&mut out, library.as_str());
            },
            GpuError::InitializationFailed(s) => {
                push_str(&mut out, "GPU initialization failed: ");
                push_str(&mut out, s.as_str());
            },
            GpuError::DeviceQueryFailed(s) => {
                push_str(&mut out, "device query failed: ");
                push_str(&mut out, s.as_str());
            },
            GpuError::Unsupported(s) => {
                push_str(&mut out, "unsupported: ");
                push_str(&mut out, s.as_str());
            },
            GpuError::Unknown(s) => {
                push_str(&mut out, "unknown GPU error: ");
                push_str(&mut out, s.as_str());
            },
        }
        assert(out@ =~= self.message_spec());
        out
    }
}

} // verus!
