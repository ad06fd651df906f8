//! Verified decision and formatting logic for multi-vendor GPU telemetry.

use vstd::prelude::*;

pub mod amd_ffi;
pub mod amdsmi;
pub mod collector;
pub mod ctl;
pub mod device;
pub mod dynlib;
pub mod error;
pub mod levelzero;
pub mod manager;
pub mod nvidia;
pub mod nvml;
pub mod process;
pub mod readings;
pub mod text;

verus! {

} // verus!
