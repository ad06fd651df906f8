use plows_gpu::collector::{backend_summary, matching_device_count, CollectorInitError, VendorFilter};
use plows_gpu::ctl::{
    check_power_limit, clock_range, contains_clock, dispatch, perf_code_name, perf_level_str,
    pick_clock, run, run_amd, run_intel, run_nvidia, AmdCommands, Commands, CtlAction, CtlCommands,
    CtlError, IntelCommands, NvidiaCommands, OutputFormat, PerfLevel, PowerLimitOutOfRange,
};
use plows_gpu::device::Vendor;

#[test]
fn vendor_filter() {
    let all = VendorFilter::all();
    assert!(all.allows(Vendor::Nvidia) && all.allows(Vendor::Amd) && all.allows(Vendor::Intel));
    let f = VendorFilter { nvidia: false, amd: true, intel: false };
    assert!(f.any());
    assert!(!f.allows(Vendor::Nvidia));
    assert!(!VendorFilter { nvidia: false, amd: false, intel: false }.any());
}

#[test]
fn collector_device_counts() {
    let bs = [(Vendor::Nvidia, 2usize), (Vendor::Amd, 1), (Vendor::Intel, 4)];
    assert_eq!(matching_device_count(VendorFilter::all(), &bs), Ok(7));
    let f = VendorFilter { nvidia: true, amd: true, intel: false };
    assert_eq!(matching_device_count(f, &bs), Ok(3));
    let none = VendorFilter { nvidia: false, amd: false, intel: false };
    assert_eq!(matching_device_count(none, &bs), Err(CollectorInitError::NoVendorsEnabled));
    let intel = VendorFilter { nvidia: false, amd: false, intel: true };
    assert_eq!(matching_device_count(intel, &bs[..2]), Err(CollectorInitError::NoMatchingDevices));
}

#[test]
fn backend_summary_line() {
    let bs = [(Vendor::Nvidia, 1usize), (Vendor::Amd, 2), (Vendor::Intel, 1)];
    assert_eq!(backend_summary(VendorFilter::all(), &bs), "nvidia:1 amd:2 intel:1");
    let f = VendorFilter { nvidia: false, amd: true, intel: false };
    assert_eq!(backend_summary(f, &bs), "amd:2");
    assert_eq!(backend_summary(f, &[]), "");
}

#[test]
fn ctl_dispatch() {
    assert_eq!(
        run(CtlCommands::NvidiaSetClocks { gpu: Some(1), mem: 5001, graphics: 1500, all: false }),
        Ok(CtlAction::NvidiaSetClocks(1, 5001, 1500))
    );
    assert_eq!(
        run(CtlCommands::NvidiaSetClocks { gpu: Some(1), mem: 5001, graphics: 1500, all: true }),
        Ok(CtlAction::NvidiaSetClocksAll(5001, 1500))
    );
    assert_eq!(
        run(CtlCommands::AmdReset { gpu: None, all: false }),
        Err(CtlError::MissingGpuIndex)
    );
    assert_eq!(
        run(CtlCommands::List { format: OutputFormat::Json }),
        Ok(CtlAction::ListAll(OutputFormat::Json))
    );
    assert_eq!(
        run_nvidia(NvidiaCommands::SetPerf { gpu: None, level: PerfLevel::High, all: true }),
        Ok(CtlAction::NvidiaSetPerfAll(PerfLevel::High))
    );
    assert_eq!(
        run_amd(AmdCommands::SetPowerLimit { gpu: 0, watts: 300 }),
        Ok(CtlAction::AmdSetPowerLimit(0, 300))
    );
    assert_eq!(
        run_intel(IntelCommands::Info { gpu: 2, format: OutputFormat::Text }),
        Ok(CtlAction::IntelGpuInfo(2, OutputFormat::Text))
    );
    assert_eq!(
        dispatch(Commands::Nvidia(NvidiaCommands::Reset { gpu: None, all: false })),
        Err(CtlError::MissingGpuIndex)
    );
}

#[test]
fn clock_helpers() {
    let mem = [9501u32, 5001, 810];
    assert!(contains_clock(&mem, 5001));
    assert!(!contains_clock(&mem, 5000));
    assert_eq!(clock_range(&mem), (810, 9501));
    assert_eq!(clock_range(&[]), (0, 0));
    assert_eq!(pick_clock(&mem, true), Some(9501));
    assert_eq!(pick_clock(&mem, false), Some(810));
    assert_eq!(pick_clock(&[], true), None);
}

#[test]
fn power_limit_checks() {
    assert_eq!(check_power_limit(300, Some((100_000, 350_000))), Ok(300_000));
    assert_eq!(
        check_power_limit(400, Some((100_000, 350_000))),
        Err(PowerLimitOutOfRange { min_watts: 100, max_watts: 350 })
    );
    assert_eq!(check_power_limit(400, None), Ok(400_000));
}

#[test]
fn perf_level_names() {
    assert_eq!(perf_level_str(PerfLevel::Low), "low");
    assert_eq!(perf_code_name(Some(3)), "manual");
    assert_eq!(perf_code_name(Some(9)), "unknown");
    assert_eq!(perf_code_name(None), "unknown");
}
