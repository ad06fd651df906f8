//! GPU control commands: which operation a command line asks for, and the
//! checks and clock choices the control operations make.

use vstd::prelude::*;

use crate::amdsmi::perf_code;
use crate::text::lower_text;

verus! {

/// Output format of list/info commands.
#[derive(Debug, Clone, Copy, PartialEq, Eq, Structural)]
pub enum OutputFormat {
    Text,
    Json,
}

/// Requested performance level.
#[derive(Debug, Clone, Copy, PartialEq, Eq, Structural)]
pub enum PerfLevel {
    Auto,
    Low,
    High,
}

/// The unified CLI's `ctl` subcommands.
#[derive(Debug, Clone, Copy, PartialEq, Eq, Structural)]
#[allow(inconsistent_fields)]
pub enum CtlCommands {
    /// List every GPU (NVIDIA + AMD + Intel).
    List { format: OutputFormat },
    NvidiaList { format: OutputFormat },
    NvidiaInfo { gpu: u32, format: OutputFormat },
    NvidiaSetClocks { gpu: Option<u32>, mem: u32, graphics: u32, all: bool },
    NvidiaSetPowerLimit { gpu: u32, watts: u32 },
    NvidiaSetPerf { gpu: Option<u32>, level: PerfLevel, all: bool },
    NvidiaReset { gpu: Option<u32>, all: bool },
    NvidiaSupportedClocks { gpu: u32, format: OutputFormat },
    AmdList { format: OutputFormat },
    AmdInfo { gpu: u32, format: OutputFormat },
    AmdSetPowerLimit { gpu: u32, watts: u32 },
    AmdSetPerf { gpu: Option<u32>, level: PerfLevel, all: bool },
    AmdReset { gpu: Option<u32>, all: bool },
    IntelList { format: OutputFormat },
    IntelInfo { gpu: u32, format: OutputFormat },
}

/// A control operation to perform.
#[derive(Debug, Clone, Copy, PartialEq, Eq, Structural)]
pub enum CtlAction {
    ListAll(OutputFormat),
    NvidiaListGpus(OutputFormat),
    NvidiaGpuInfo(u32, OutputFormat),
    NvidiaSetClocks(u32, u32, u32),
    NvidiaSetClocksAll(u32, u32),
    NvidiaSetPowerLimit(u32, u32),
    NvidiaSetPerf(u32, PerfLevel),
    NvidiaSetPerfAll(PerfLevel),
    NvidiaResetClocks(u32),
    NvidiaResetAll,
    NvidiaSupportedClocks(u32, OutputFormat),
    AmdListGpus(OutputFormat),
    AmdGpuInfo(u32, OutputFormat),
    AmdSetPowerLimit(u32, u32),
    AmdSetPerf(u32, PerfLevel),
    AmdSetPerfAll(PerfLevel),
    AmdResetClocks(u32),
    AmdResetAll,
    IntelListGpus(OutputFormat),
    IntelGpuInfo(u32, OutputFormat),
}

/// A command that cannot be carried out as given.
#[derive(Debug, Clone, Copy, PartialEq, Eq, Structural)]
pub enum CtlError {
    /// Neither a GPU index nor `--all` was given
    /// ("Specify GPU index or use --all").
    MissingGpuIndex,
}

impl CtlError {
    /// The text shown for the error.
    pub open spec fn message_spec(self) -> Seq<char> {
        match self {
            CtlError::MissingGpuIndex => "Specify GPU index or use --all"@,
        }
    }

    /// Renders the error as text.
    pub fn message(&self) -> (r: &'static str)
        ensures
            r@ == self.message_spec(),
    {
        match self {
            CtlError::MissingGpuIndex => "Specify GPU index or use --all",
        }
    }
}

/// The single-GPU action for `gpu`, or the all-GPU action with `--all`.
pub open spec fn one_or_all(
    gpu: Option<u32>,
    all: bool,
    one: spec_fn(u32) -> CtlAction,
    every: CtlAction,
) -> Result<CtlAction, CtlError> {
    if all {
        Ok(every)
    } else {
        match gpu {
            Some(i) => Ok(one(i)),
            None => Err(CtlError::MissingGpuIndex),
        }
    }
}

/// The operation a `ctl` subcommand asks for.
pub open spec fn ctl_action(cmd: CtlCommands) -> Result<CtlAction, CtlError> {
    match cmd {
        CtlCommands::List { format } => Ok(CtlAction::ListAll(format)),
        CtlCommands::NvidiaList { format } => Ok(CtlAction::NvidiaListGpus(format)),
        CtlCommands::NvidiaInfo { gpu, format } => Ok(CtlAction::NvidiaGpuInfo(gpu, format)),
        CtlCommands::NvidiaSetClocks { gpu, mem, graphics, all } => one_or_all(
            gpu,
            all,
            |i: u32| CtlAction::NvidiaSetClocks(i, mem, graphics),
            CtlAction::NvidiaSetClocksAll(mem, graphics),
        ),
        CtlCommands::NvidiaSetPowerLimit { gpu, watts } => Ok(
            CtlAction::NvidiaSetPowerLimit(gpu, watts),
        ),
        CtlCommands::NvidiaSetPerf { gpu, level, all } => one_or_all(
            gpu,
            all,
            |i: u32| CtlAction::NvidiaSetPerf(i, level),
            CtlAction::NvidiaSetPerfAll(level),
        ),
        CtlCommands::NvidiaReset { gpu, all } => one_or_all(
            gpu,
            all,
            |i: u32| CtlAction::NvidiaResetClocks(i),
            CtlAction::NvidiaResetAll,
        ),
        CtlCommands::NvidiaSupportedClocks { gpu, format } => Ok(
            CtlAction::NvidiaSupportedClocks(gpu, format),
        ),
        CtlCommands::AmdList { format } => Ok(CtlAction::AmdListGpus(format)),
        CtlCommands::AmdInfo { gpu, format } => Ok(CtlAction::AmdGpuInfo(gpu, format)),
        CtlCommands::AmdSetPowerLimit { gpu, watts } => Ok(CtlAction::AmdSetPowerLimit(gpu, watts)),
        CtlCommands::AmdSetPerf { gpu, level, all } => one_or_all(
            gpu,
            all,
            |i: u32| CtlAction::AmdSetPerf(i, level),
            CtlAction::AmdSetPerfAll(level),
        ),
        CtlCommands::AmdReset { gpu, all } => one_or_all(
            gpu,
            all,
            |i: u32| CtlAction::AmdResetClocks(i),
            CtlAction::AmdResetAll,
        ),
        CtlCommands::IntelList { format } => Ok(CtlAction::IntelListGpus(format)),
        CtlCommands::IntelInfo { gpu, format } => Ok(CtlAction::IntelGpuInfo(gpu, format)),
    }
}

/// The operation a `ctl` subcommand asks for.
pub fn run(cmd: CtlCommands) -> (r: Result<CtlAction, CtlError>)
    ensures
        r == ctl_action(cmd),
{
    match cmd {
        CtlCommands::List { format } => Ok(CtlAction::ListAll(format)),
        CtlCommands::NvidiaList { format } => Ok(CtlAction::NvidiaListGpus(format)),
        CtlCommands::NvidiaInfo { gpu, format } => Ok(CtlAction::NvidiaGpuInfo(gpu, format)),
        CtlCommands::NvidiaSetClocks { gpu, mem, graphics, all } => {
            if all {
                Ok(CtlAction::NvidiaSetClocksAll(mem, graphics))
            } else {
                match gpu {
                    Some(i) => Ok(CtlAction::NvidiaSetClocks(i, mem, graphics)),
                    None => Err(CtlError::MissingGpuIndex),
                }
            }
        },
        CtlCommands::NvidiaSetPowerLimit { gpu, watts } => Ok(
            CtlAction::NvidiaSetPowerLimit(gpu, watts),
        ),
        CtlCommands::NvidiaSetPerf { gpu, level, all } => {
            if all {
                Ok(CtlAction::NvidiaSetPerfAll(level))
            } else {
                match gpu {
                    Some(i) => Ok(CtlAction::NvidiaSetPerf(i, level)),
                    None => Err(CtlError::MissingGpuIndex),
                }
            }
        },
        CtlCommands::NvidiaReset { gpu, all } => {
            if all {
                Ok(CtlAction::NvidiaResetAll)
            } else {
                match gpu {
                    Some(i) => Ok(CtlAction::NvidiaResetClocks(i)),
                    None => Err(CtlError::MissingGpuIndex),
                }
            }
        },
        CtlCommands::NvidiaSupportedClocks { gpu, format } => Ok(
            CtlAction::NvidiaSupportedClocks(gpu, format),
        ),
        CtlCommands::AmdList { format } => Ok(CtlAction::AmdListGpus(format)),
        CtlCommands::AmdInfo { gpu, format } => Ok(CtlAction::AmdGpuInfo(gpu, format)),
        CtlCommands::AmdSetPowerLimit { gpu, watts } => Ok(CtlAction::AmdSetPowerLimit(gpu, watts)),
        CtlCommands::AmdSetPerf { gpu, level, all } => {
            if all {
                Ok(CtlAction::AmdSetPerfAll(level))
            } else {
                match gpu {
                    Some(i) => Ok(CtlAction::AmdSetPerf(i, level)),
                    None => Err(CtlError::MissingGpuIndex),
                }
            }
        },
        CtlCommands::AmdReset { gpu, all } => {
            if all {
                Ok(CtlAction::AmdResetAll)
            } else {
                match gpu {
                    Some(i) => Ok(CtlAction::AmdResetClocks(i)),
                    None => Err(CtlError::MissingGpuIndex),
                }
            }
        },
        CtlCommands::IntelList { format } => Ok(CtlAction::IntelListGpus(format)),
        CtlCommands::IntelInfo { gpu, format } => Ok(CtlAction::IntelGpuInfo(gpu, format)),
    }
}

/// The standalone control tool's top-level commands.
#[derive(Debug, Clone, Copy, PartialEq, Eq, Structural)]
pub enum Commands {
    /// List every GPU discovered (NVIDIA + AMD + Intel).
    List { format: OutputFormat },
    /// NVIDIA GPU control operations.
    Nvidia(NvidiaCommands),
    /// AMD GPU control operations.
    Amd(AmdCommands),
    /// Intel GPU info.
    Intel(IntelCommands),
}

/// NVIDIA subcommands of the standalone control tool.
#[derive(Debug, Clone, Copy, PartialEq, Eq, Structural)]
#[allow(inconsistent_fields)]
pub enum NvidiaCommands {
    List { format: OutputFormat },
    Info { gpu: u32, format: OutputFormat },
    SetClocks { gpu: Option<u32>, mem: u32, graphics: u32, all: bool },
    SetPowerLimit { gpu: u32, watts: u32 },
    SetPerf { gpu: Option<u32>, level: PerfLevel, all: bool },
    Reset { gpu: Option<u32>, all: bool },
    SupportedClocks { gpu: u32, format: OutputFormat },
}

/// AMD subcommands of the standalone control tool.
#[derive(Debug, Clone, Copy, PartialEq, Eq, Structural)]
#[allow(inconsistent_fields)]
pub enum AmdCommands {
    List { format: OutputFormat },
    Info { gpu: u32, format: OutputFormat },
    SetPowerLimit { gpu: u32, watts: u32 },
    SetPerf { gpu: Option<u32>, level: PerfLevel, all: bool },
    Reset { gpu: Option<u32>, all: bool },
}

/// Intel subcommands of the standalone control tool.
#[derive(Debug, Clone, Copy, PartialEq, Eq, Structural)]
pub enum IntelCommands {
    List { format: OutputFormat },
    Info { gpu: u32, format: OutputFormat },
}

/// The unified-CLI form of an NVIDIA subcommand.
pub open spec fn nvidia_as_ctl(cmd: NvidiaCommands) -> CtlCommands {
    match cmd {
        NvidiaCommands::List { format } => CtlCommands::NvidiaList { format },
        NvidiaCommands::Info { gpu, format } => CtlCommands::NvidiaInfo { gpu, format },
        NvidiaCommands::SetClocks { gpu, mem, graphics, all } => CtlCommands::NvidiaSetClocks {
            gpu,
            mem,
            graphics,
            all,
        },
        NvidiaCommands::SetPowerLimit { gpu, watts } => CtlCommands::NvidiaSetPowerLimit {
            gpu,
            watts,
        },
        NvidiaCommands::SetPerf { gpu, level, all } => CtlCommands::NvidiaSetPerf {
            gpu,
            level,
            all,
        },
        NvidiaCommands::Reset { gpu, all } => CtlCommands::NvidiaReset { gpu, all },
        NvidiaCommands::SupportedClocks { gpu, format } => CtlCommands::NvidiaSupportedClocks {
            gpu,
            format,
        },
    }
}

/// The unified-CLI form of an AMD subcommand.
pub open spec fn amd_as_ctl(cmd: AmdCommands) -> CtlCommands {
    match cmd {
        AmdCommands::List { format } => CtlCommands::AmdList { format },
        AmdCommands::Info { gpu, format } => CtlCommands::AmdInfo { gpu, format },
        AmdCommands::SetPowerLimit { gpu, watts } => CtlCommands::AmdSetPowerLimit { gpu, watts },
        AmdCommands::SetPerf { gpu, level, all } => CtlCommands::AmdSetPerf { gpu, level, all },
        AmdCommands::Reset { gpu, all } => CtlCommands::AmdReset { gpu, all },
    }
}

/// The unified-CLI form of an Intel subcommand.
pub open spec fn intel_as_ctl(cmd: IntelCommands) -> CtlCommands {
    match cmd {
        IntelCommands::List { format } => CtlCommands::IntelList { format },
        IntelCommands::Info { gpu, format } => CtlCommands::IntelInfo { gpu, format },
    }
}

/// The operation an NVIDIA subcommand asks for: the same as its unified-CLI form.
pub fn run_nvidia(cmd: NvidiaCommands) -> (r: Result<CtlAction, CtlError>)
    ensures
        r == ctl_action(nvidia_as_ctl(cmd)),
{
    let c = match cmd {
        NvidiaCommands::List { format } => CtlCommands::NvidiaList { format },
        NvidiaCommands::Info { gpu, format } => CtlCommands::NvidiaInfo { gpu, format },
        NvidiaCommands::SetClocks { gpu, mem, graphics, all } => CtlCommands::NvidiaSetClocks {
            gpu,
            mem,
            graphics,
            all,
        },
        NvidiaCommands::SetPowerLimit { gpu, watts } => CtlCommands::NvidiaSetPowerLimit {
            gpu,
            watts,
        },
        NvidiaCommands::SetPerf { gpu, level, all } => CtlCommands::NvidiaSetPerf {
            gpu,
            level,
            all,
        },
        NvidiaCommands::Reset { gpu, all } => CtlCommands::NvidiaReset { gpu, all },
        NvidiaCommands::SupportedClocks { gpu, format } => CtlCommands::NvidiaSupportedClocks {
            gpu,
            format,
        },
    };
    run(c)
}

/// The operation an AMD subcommand asks for: the same as its unified-CLI form.
pub fn run_amd(cmd: AmdCommands) -> (r: Result<CtlAction, CtlError>)
    ensures
        r == ctl_action(amd_as_ctl(cmd)),
{
    let c = match cmd {
        AmdCommands::List { format } => CtlCommands::AmdList { format },
        AmdCommands::Info { gpu, format } => CtlCommands::AmdInfo { gpu, format },
        AmdCommands::SetPowerLimit { gpu, watts } => CtlCommands::AmdSetPowerLimit { gpu, watts },
        AmdCommands::SetPerf { gpu, level, all } => CtlCommands::AmdSetPerf { gpu, level, all },
        AmdCommands::Reset { gpu, all } => CtlCommands::AmdReset { gpu, all },
    };
    run(c)
}

/// The operation an Intel subcommand asks for: the same as its unified-CLI form.
pub fn run_intel(cmd: IntelCommands) -> (r: Result<CtlAction, CtlError>)
    ensures
        r == ctl_action(intel_as_ctl(cmd)),
{
    let c = match cmd {
        IntelCommands::List { format } => CtlCommands::IntelList { format },
        IntelCommands::Info { gpu, format } => CtlCommands::IntelInfo { gpu, format },
    };
    run(c)
}

/// The operation a top-level command of the standalone tool asks for.
pub open spec fn command_action(cmd: Commands) -> Result<CtlAction, CtlError> {
    match cmd {
        Commands::List { format } => Ok(CtlAction::ListAll(format)),
        Commands::Nvidia(c) => ctl_action(nvidia_as_ctl(c)),
        Commands::Amd(c) => ctl_action(amd_as_ctl(c)),
        Commands::Intel(c) => ctl_action(intel_as_ctl(c)),
    }
}

/// The operation a top-level command of the standalone tool asks for.
pub fn dispatch(cmd: Commands) -> (r: Result<CtlAction, CtlError>)
    ensures
        r == command_action(cmd),
{
    match cmd {
        Commands::List { format } => Ok(CtlAction::ListAll(format)),
        Commands::Nvidia(c) => run_nvidia(c),
        Commands::Amd(c) => run_amd(c),
        Commands::Intel(c) => run_intel(c),
    }
}

/// Law: a per-GPU command with `--all` targets every GPU whatever index is
/// given, and one without `--all` and without an index is refused.
pub proof fn law_gpu_index_or_all(gpu: Option<u32>, all: bool, level: PerfLevel, mem: u32, graphics: u32)
    ensures
        all ==> ctl_action(CtlCommands::NvidiaSetPerf { gpu, level, all }) == Ok::<
            CtlAction,
            CtlError,
        >(CtlAction::NvidiaSetPerfAll(level)),
        all ==> ctl_action(CtlCommands::AmdReset { gpu, all }) == Ok::<CtlAction, CtlError>(
            CtlAction::AmdResetAll,
        ),
        !all && gpu is None ==> {
            &&& ctl_action(CtlCommands::NvidiaSetClocks { gpu, mem, graphics, all }) == Err::<
                CtlAction,
                CtlError,
            >(CtlError::MissingGpuIndex)
            &&& ctl_action(CtlCommands::NvidiaSetPerf { gpu, level, all }) == Err::<
                CtlAction,
                CtlError,
            >(CtlError::MissingGpuIndex)
            &&& ctl_action(CtlCommands::NvidiaReset { gpu, all }) == Err::<CtlAction, CtlError>(
                CtlError::MissingGpuIndex,
            )
            &&& ctl_action(CtlCommands::AmdSetPerf { gpu, level, all }) == Err::<
                CtlAction,
                CtlError,
            >(CtlError::MissingGpuIndex)
            &&& ctl_action(CtlCommands::AmdReset { gpu, all }) == Err::<CtlAction, CtlError>(
                CtlError::MissingGpuIndex,
            )
        },
{
}

/// Whether `clock` is one of the supported clocks.
pub fn contains_clock(supported: &[u32], clock: u32) -> (r: bool)
    ensures
        r == supported@.contains(clock),
{
    let mut i: usize = 0;
    while i < supported.len()
        invariant
            i <= supported.len(),
            forall|j: int| 0 <= j < i ==> supported@[j] != clock,
        decreases supported.len() - i,
    {
        if supported[i] == clock {
            return true;
        }
        i = i + 1;
    }
    false
}

/// The range shown for a supported-clock list (NVML lists descend): its last
/// entry as the minimum and its first as the maximum, 0 for an empty list.
pub fn clock_range(supported: &[u32]) -> (r: (u32, u32))
    ensures
        supported@.len() == 0 ==> r == (0u32, 0u32),
        supported@.len() > 0 ==> r == (supported@.last(), supported@[0]),
{
    if supported.len() == 0 {
        (0, 0)
    } else {
        (supported[supported.len() - 1], supported[0])
    }
}

/// The clock a performance level selects from a supported list: the first
/// (highest) for high performance, the last (lowest) otherwise.
pub fn pick_clock(supported: &[u32], high: bool) -> (r: Option<u32>)
    ensures
        supported@.len() == 0 <==> r is None,
        r matches Some(c) ==> c == if high {
            supported@[0]
        } else {
            supported@.last()
        },
{
    if supported.len() == 0 {
        None
    } else if high {
        Some(supported[0])
    } else {
        Some(supported[supported.len() - 1])
    }
}

/// A power limit outside the device's constraints, with the valid range in watts.
#[derive(Debug, Clone, Copy, PartialEq, Eq, Structural)]
pub struct PowerLimitOutOfRange {
    pub min_watts: u32,
    pub max_watts: u32,
}

/// The limit in milliwatts to request for `watts`, checked against the
/// device's `(min, max)` milliwatt constraints when they are known.
pub fn check_power_limit(watts: u32, constraints: Option<(u32, u32)>) -> (r: Result<
    u32,
    PowerLimitOutOfRange,
>)
    requires
        watts * 1000 <= u32::MAX,
    ensures
        match constraints {
            Some((min, max)) => if min <= watts * 1000 <= max {
                r == Ok::<u32, PowerLimitOutOfRange>((watts * 1000) as u32)
            } else {
                r == Err::<u32, PowerLimitOutOfRange>(
                    PowerLimitOutOfRange { min_watts: min / 1000, max_watts: max / 1000 },
                )
            },
            None => r == Ok::<u32, PowerLimitOutOfRange>((watts * 1000) as u32),
        },
{
    let milliwatts = watts * 1000;
    match constraints {
        Some((min, max)) => {
            if milliwatts < min || milliwatts > max {
                Err(PowerLimitOutOfRange { min_watts: min / 1000, max_watts: max / 1000 })
            } else {
                Ok(milliwatts)
            }
        },
        None => Ok(milliwatts),
    }
}

/// The AMD SMI name of a requested performance level.
pub open spec fn perf_level_label(level: PerfLevel) -> Seq<char> {
    match level {
        PerfLevel::Auto => "auto"@,
        PerfLevel::Low => "low"@,
        PerfLevel::High => "high"@,
    }
}

/// `auto`, `low` or `high`.
pub fn perf_level_str(level: PerfLevel) -> (r: &'static str)
    ensures
        r@ == perf_level_label(level),
{
    match level {
        PerfLevel::Auto => "auto",
        PerfLevel::Low => "low",
        PerfLevel::High => "high",
    }
}

/// The name shown for a reported AMD performance level code.
pub open spec fn perf_code_label(code: Option<u32>) -> Seq<char> {
    match code {
        Some(0) => "auto"@,
        Some(1) => "low"@,
        Some(2) => "high"@,
        Some(3) => "manual"@,
        _ => "unknown"@,
    }
}

/// `auto`, `low`, `high`, `manual` for codes 0-3, else `unknown`.
pub fn perf_code_name(code: Option<u32>) -> (r: &'static str)
    ensures
        r@ == perf_code_label(code),
{
    match code {
        Some(0) => "auto",
        Some(1) => "low",
        Some(2) => "high",
        Some(3) => "manual",
        _ => "unknown",
    }
}


/// Law: a per-GPU command given a GPU index and no `--all` acts on that GPU
/// alone, with the given settings; it is never turned into an action on every
/// GPU.
pub proof fn law_single_gpu_command_targets_it(i: u32, mem: u32, graphics: u32, level: PerfLevel)
    ensures
        ctl_action(CtlCommands::NvidiaSetClocks { gpu: Some(i), mem, graphics, all: false })
            == Ok::<CtlAction, CtlError>(CtlAction::NvidiaSetClocks(i, mem, graphics)),
        ctl_action(CtlCommands::NvidiaSetPerf { gpu: Some(i), level, all: false }) == Ok::<
            CtlAction,
            CtlError,
        >(CtlAction::NvidiaSetPerf(i, level)),
        ctl_action(CtlCommands::NvidiaReset { gpu: Some(i), all: false }) == Ok::<
            CtlAction,
            CtlError,
        >(CtlAction::NvidiaResetClocks(i)),
        ctl_action(CtlCommands::AmdSetPerf { gpu: Some(i), level, all: false }) == Ok::<
            CtlAction,
            CtlError,
        >(CtlAction::AmdSetPerf(i, level)),
        ctl_action(CtlCommands::AmdReset { gpu: Some(i), all: false }) == Ok::<CtlAction, CtlError>(
            CtlAction::AmdResetClocks(i),
        ),
        command_action(Commands::Nvidia(NvidiaCommands::Reset { gpu: Some(i), all: false }))
            == Ok::<CtlAction, CtlError>(CtlAction::NvidiaResetClocks(i)),
        command_action(Commands::Amd(AmdCommands::Reset { gpu: Some(i), all: false })) == Ok::<
            CtlAction,
            CtlError,
        >(CtlAction::AmdResetClocks(i)),
{
}

/// The AMD SMI performance-level code of a requested level.
pub open spec fn requested_level_code(level: PerfLevel) -> u32 {
    match level {
        PerfLevel::Auto => 0,
        PerfLevel::Low => 1,
        PerfLevel::High => 2,
    }
}

/// Law: the name sent for a requested performance level is the AMD SMI name
/// of that very level: it is already lower case, it parses to the level's code
/// (auto 0, low 1, high 2), and the code is shown under the same name again;
/// so distinct levels are sent under distinct names.
pub proof fn law_requested_level_names(level: PerfLevel, other: PerfLevel)
    ensures
        lower_text(perf_level_label(level)) == perf_level_label(level),
        perf_code(perf_level_label(level)) == Some(requested_level_code(level)),
        perf_code_label(perf_code(perf_level_label(level))) == perf_level_label(level),
        perf_level_label(level) == perf_level_label(other) ==> level == other,
{
    reveal_strlit("auto");
    reveal_strlit("low");
    reveal_strlit("high");
    reveal_strlit("manual");
    assert(lower_text("auto"@) =~= "auto"@);
    assert(lower_text("low"@) =~= "low"@);
    assert(lower_text("high"@) =~= "high"@);
    assert("high"@[0] != "auto"@[0]);
    assert("high"@.len() != "low"@.len());
    assert("auto"@.len() != "low"@.len());
    assert("manual"@.len() != "low"@.len());
    assert("manual"@.len() != "auto"@.len());
    assert("manual"@.len() != "high"@.len());
}

} // verus!
