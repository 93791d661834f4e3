//! CPU category: power plan, security mitigations, and processor facts.

use crate::checks::support::{dword_eq_check, dword_flag2_check, dword_presence_check, dword_show_check, spec_dword_eq_check, spec_dword_flag2_check, spec_dword_presence_check, spec_dword_show_check, spec_static_check, static_check};
use crate::probe::{query_cpu_info, query_wmi_u32, read_registry_dword, read_registry_string, reg_dword_of, reg_string_of, wmi_u32_of};
use crate::strutil::{contains_lower, dec_str, lower_seq, seq_contains_sub, trim_spec, trim_str, u32_to_dec};
use crate::types::{described_check_model, Check};
use crate::probe::{HKEY_LOCAL_MACHINE, Probe, ProbeModel};
use crate::types::{CategoryResults, CheckModel, CheckStatus};
use vstd::prelude::*;

verus! {

/// The active power scheme: passes when the scheme's identifier names
/// the high-performance plan, matched case-insensitively.
pub open spec fn spec_check_power_plan(p: ProbeModel) -> CheckModel {
    let g = reg_string_of(
        p,
        HKEY_LOCAL_MACHINE,
        r"SYSTEM\CurrentControlSet\Control\Power\User\PowerSchemes"@,
        "ActivePowerScheme"@,
    );
    let hp = match g {
        Some(s) => seq_contains_sub(lower_seq(s), "8c5e7fda"@),
        None => false,
    };
    described_check_model(
        "Active Power Plan"@,
        if hp {
            "High Performance"@
        } else {
            "Balanced/Other"@
        },
        if hp {
            CheckStatus::Optimal
        } else {
            CheckStatus::Warning
        },
        "High Performance power plan provides best performance."@,
    )
}

/// Classifies the active power scheme.
pub fn check_power_plan(p: &Probe) -> (c: Check)
    ensures
        c@ == spec_check_power_plan(p@),
{
    let g = read_registry_string(
        p,
        HKEY_LOCAL_MACHINE,
        r"SYSTEM\CurrentControlSet\Control\Power\User\PowerSchemes",
        "ActivePowerScheme",
    );
    let hp = match &g {
        Some(s) => contains_lower(s.as_str(), "8c5e7fda"),
        None => false,
    };
    if hp {
        Check::new("Active Power Plan", "High Performance", CheckStatus::Optimal)
            .with_description("High Performance power plan provides best performance.")
    } else {
        Check::new("Active Power Plan", "Balanced/Other", CheckStatus::Warning).with_description(
            "High Performance power plan provides best performance.",
        )
    }
}

/// The processor throttle window: both bounds at one hundred percent
/// pass; five and one hundred are the defaults on absence.
pub open spec fn spec_check_processor_throttle(p: ProbeModel) -> CheckModel {
    let minv = match reg_dword_of(
        p,
        HKEY_LOCAL_MACHINE,
        r"SYSTEM\CurrentControlSet\Control\Power\PowerSettings\54533251-82be-4824-96c1-47b60b740d00\893dee8e-2bef-41e0-89c6-b55d0929964c"@,
        "ValueMin"@,
    ) {
        Some(x) => x,
        None => 5u32,
    };
    let maxv = match reg_dword_of(
        p,
        HKEY_LOCAL_MACHINE,
        r"SYSTEM\CurrentControlSet\Control\Power\PowerSettings\54533251-82be-4824-96c1-47b60b740d00\893dee8e-2bef-41e0-89c6-b55d0929964c"@,
        "ValueMax"@,
    ) {
        Some(x) => x,
        None => 100u32,
    };
    let st = if minv >= 100 && maxv >= 100 {
        CheckStatus::Optimal
    } else {
        CheckStatus::Warning
    };
    described_check_model(
        "Processor Throttle"@,
        "Min: "@ + dec_str(minv as nat) + "%, Max: "@ + dec_str(maxv as nat) + "%"@,
        st,
        "CPU frequency limits. 100% is optimal for performance."@,
    )
}

/// Classifies the processor throttle window.
pub fn check_processor_throttle(p: &Probe) -> (c: Check)
    ensures
        c@ == spec_check_processor_throttle(p@),
{
    let minv = match read_registry_dword(
        p,
        HKEY_LOCAL_MACHINE,
        r"SYSTEM\CurrentControlSet\Control\Power\PowerSettings\54533251-82be-4824-96c1-47b60b740d00\893dee8e-2bef-41e0-89c6-b55d0929964c",
        "ValueMin",
    ) {
        Some(x) => x,
        None => 5,
    };
    let maxv = match read_registry_dword(
        p,
        HKEY_LOCAL_MACHINE,
        r"SYSTEM\CurrentControlSet\Control\Power\PowerSettings\54533251-82be-4824-96c1-47b60b740d00\893dee8e-2bef-41e0-89c6-b55d0929964c",
        "ValueMax",
    ) {
        Some(x) => x,
        None => 100,
    };
    let st = if minv >= 100 && maxv >= 100 {
        CheckStatus::Optimal
    } else {
        CheckStatus::Warning
    };
    let mut value = String::from_str("Min: ");
    let mind = u32_to_dec(minv);
    value.append(mind.as_str());
    value.append("%, Max: ");
    let maxd = u32_to_dec(maxv);
    value.append(maxd.as_str());
    value.append("%");
    proof {
        assert(value@ =~= "Min: "@ + dec_str(minv as nat) + "%, Max: "@ + dec_str(maxv as nat)
            + "%"@);
    }
    Check::new("Processor Throttle", value.as_str(), st).with_description(
        "CPU frequency limits. 100% is optimal for performance.",
    )
}

/// Simultaneous multi-threading: more logical processors than cores
/// means enabled; zero recorded cores means unknown.
pub open spec fn spec_check_smt_status(p: ProbeModel) -> CheckModel {
    let logical = match wmi_u32_of(p, "Win32_Processor"@, "NumberOfLogicalProcessors"@) {
        Some(x) => x,
        None => 0u32,
    };
    let cores = match wmi_u32_of(p, "Win32_Processor"@, "NumberOfCores"@) {
        Some(x) => x,
        None => 0u32,
    };
    let txt = if logical > cores && cores > 0 {
        "Enabled"@
    } else if cores > 0 {
        "Disabled"@
    } else {
        "Unknown"@
    };
    described_check_model(
        "SMT/Hyperthreading"@,
        txt,
        CheckStatus::Info,
        "Simultaneous Multi-Threading detection."@,
    )
}

/// Detects simultaneous multi-threading from the processor counts.
pub fn check_smt_status(p: &Probe) -> (c: Check)
    ensures
        c@ == spec_check_smt_status(p@),
{
    let logical = match query_wmi_u32(p, "Win32_Processor", "NumberOfLogicalProcessors") {
        Some(x) => x,
        None => 0,
    };
    let cores = match query_wmi_u32(p, "Win32_Processor", "NumberOfCores") {
        Some(x) => x,
        None => 0,
    };
    let txt = if logical > cores && cores > 0 {
        "Enabled"
    } else if cores > 0 {
        "Disabled"
    } else {
        "Unknown"
    };
    Check::new("SMT/Hyperthreading", txt, CheckStatus::Info).with_description(
        "Simultaneous Multi-Threading detection.",
    )
}

/// The processor's reported architecture code, named.
pub open spec fn spec_check_cpu_architecture(p: ProbeModel) -> CheckModel {
    let arch = match p.cpu {
        Some(c) => {
            if c.architecture == 0 {
                "x86"@
            } else if c.architecture == 1 {
                "MIPS"@
            } else if c.architecture == 2 {
                "Alpha"@
            } else if c.architecture == 3 {
                "PowerPC"@
            } else if c.architecture == 6 {
                "ia64"@
            } else if c.architecture == 9 {
                "x64"@
            } else {
                "Unknown"@
            }
        },
        None => "Unknown"@,
    };
    described_check_model("CPU Architecture"@, arch, CheckStatus::Info, ""@)
}

/// Names the processor's reported architecture code.
pub fn check_cpu_architecture(p: &Probe) -> (c: Check)
    ensures
        c@ == spec_check_cpu_architecture(p@),
{
    let arch = match query_cpu_info(p) {
        Some(c) => {
            if c.architecture == 0 {
                "x86"
            } else if c.architecture == 1 {
                "MIPS"
            } else if c.architecture == 2 {
                "Alpha"
            } else if c.architecture == 3 {
                "PowerPC"
            } else if c.architecture == 6 {
                "ia64"
            } else if c.architecture == 9 {
                "x64"
            } else {
                "Unknown"
            }
        },
        None => "Unknown",
    };
    Check::new("CPU Architecture", arch, CheckStatus::Info).with_description("")
}

/// The processor's name, trimmed of surrounding whitespace.
pub open spec fn spec_check_cpu_name(p: ProbeModel) -> CheckModel {
    let value = match p.cpu {
        Some(c) => trim_spec(c.name),
        None => "Unknown"@,
    };
    described_check_model("CPU Name"@, value, CheckStatus::Info, ""@)
}

/// Reports the processor's name.
pub fn check_cpu_name(p: &Probe) -> (c: Check)
    ensures
        c@ == spec_check_cpu_name(p@),
{
    match query_cpu_info(p) {
        Some(c) => {
            let t = trim_str(c.name.as_str());
            Check::new("CPU Name", t.as_str(), CheckStatus::Info).with_description("")
        },
        None => Check::new("CPU Name", "Unknown", CheckStatus::Info).with_description(""),
    }
}

/// The number of physical cores.
pub open spec fn spec_check_cpu_cores(p: ProbeModel) -> CheckModel {
    let value = match p.cpu {
        Some(c) => dec_str(c.cores as nat) + " cores"@,
        None => "Unknown"@,
    };
    described_check_model("CPU Cores"@, value, CheckStatus::Info, ""@)
}

/// Reports the number of physical cores.
pub fn check_cpu_cores(p: &Probe) -> (c: Check)
    ensures
        c@ == spec_check_cpu_cores(p@),
{
    match query_cpu_info(p) {
        Some(c) => {
            let mut value = u32_to_dec(c.cores);
            value.append(" cores");
            Check::new("CPU Cores", value.as_str(), CheckStatus::Info).with_description("")
        },
        None => Check::new("CPU Cores", "Unknown", CheckStatus::Info).with_description(""),
    }
}

/// The number of logical processors.
pub open spec fn spec_check_cpu_threads(p: ProbeModel) -> CheckModel {
    let value = match p.cpu {
        Some(c) => dec_str(c.logical as nat) + " threads"@,
        None => "Unknown"@,
    };
    described_check_model("CPU Threads"@, value, CheckStatus::Info, ""@)
}

/// Reports the number of logical processors.
pub fn check_cpu_threads(p: &Probe) -> (c: Check)
    ensures
        c@ == spec_check_cpu_threads(p@),
{
    match query_cpu_info(p) {
        Some(c) => {
            let mut value = u32_to_dec(c.logical);
            value.append(" threads");
            Check::new("CPU Threads", value.as_str(), CheckStatus::Info).with_description("")
        },
        None => Check::new("CPU Threads", "Unknown", CheckStatus::Info).with_description(""),
    }
}

/// The level-two cache size, when reported as non-zero.
pub open spec fn spec_check_l2_cache(p: ProbeModel) -> CheckModel {
    let value = match p.cpu {
        Some(c) => {
            if c.l2_cache > 0 {
                dec_str(c.l2_cache as nat) + " KB"@
            } else {
                "Not reported"@
            }
        },
        None => "Unknown"@,
    };
    described_check_model("L2 Cache"@, value, CheckStatus::Info, ""@)
}

/// Reports the level-two cache size.
pub fn check_l2_cache(p: &Probe) -> (c: Check)
    ensures
        c@ == spec_check_l2_cache(p@),
{
    match query_cpu_info(p) {
        Some(c) => {
            if c.l2_cache > 0 {
                let mut value = u32_to_dec(c.l2_cache);
                value.append(" KB");
                Check::new("L2 Cache", value.as_str(), CheckStatus::Info).with_description("")
            } else {
                Check::new("L2 Cache", "Not reported", CheckStatus::Info).with_description("")
            }
        },
        None => Check::new("L2 Cache", "Unknown", CheckStatus::Info).with_description(""),
    }
}

/// The level-three cache size, when reported as non-zero.
pub open spec fn spec_check_l3_cache(p: ProbeModel) -> CheckModel {
    let value = match p.cpu {
        Some(c) => {
            if c.l3_cache > 0 {
                dec_str(c.l3_cache as nat) + " KB"@
            } else {
                "Not reported"@
            }
        },
        None => "Unknown"@,
    };
    described_check_model("L3 Cache"@, value, CheckStatus::Info, ""@)
}

/// Reports the level-three cache size.
pub fn check_l3_cache(p: &Probe) -> (c: Check)
    ensures
        c@ == spec_check_l3_cache(p@),
{
    match query_cpu_info(p) {
        Some(c) => {
            if c.l3_cache > 0 {
                let mut value = u32_to_dec(c.l3_cache);
                value.append(" KB");
                Check::new("L3 Cache", value.as_str(), CheckStatus::Info).with_description("")
            } else {
                Check::new("L3 Cache", "Not reported", CheckStatus::Info).with_description("")
            }
        },
        None => Check::new("L3 Cache", "Unknown", CheckStatus::Info).with_description(""),
    }
}

/// The currently reported clock speed.
pub open spec fn spec_check_cpu_base_clock(p: ProbeModel) -> CheckModel {
    let value = match p.cpu {
        Some(c) => dec_str(c.current_clock as nat) + " MHz"@,
        None => "Unknown"@,
    };
    described_check_model("CPU Current Clock"@, value, CheckStatus::Info, ""@)
}

/// Reports the current clock speed.
pub fn check_cpu_base_clock(p: &Probe) -> (c: Check)
    ensures
        c@ == spec_check_cpu_base_clock(p@),
{
    match query_cpu_info(p) {
        Some(c) => {
            let mut value = u32_to_dec(c.current_clock);
            value.append(" MHz");
            Check::new("CPU Current Clock", value.as_str(), CheckStatus::Info).with_description(
                "",
            )
        },
        None => Check::new("CPU Current Clock", "Unknown", CheckStatus::Info).with_description(
            "",
        ),
    }
}

/// The maximum reported clock speed.
pub open spec fn spec_check_cpu_max_clock(p: ProbeModel) -> CheckModel {
    let value = match p.cpu {
        Some(c) => dec_str(c.max_clock as nat) + " MHz"@,
        None => "Unknown"@,
    };
    described_check_model("CPU Max Clock"@, value, CheckStatus::Info, ""@)
}

/// Reports the maximum clock speed.
pub fn check_cpu_max_clock(p: &Probe) -> (c: Check)
    ensures
        c@ == spec_check_cpu_max_clock(p@),
{
    match query_cpu_info(p) {
        Some(c) => {
            let mut value = u32_to_dec(c.max_clock);
            value.append(" MHz");
            Check::new("CPU Max Clock", value.as_str(), CheckStatus::Info).with_description("")
        },
        None => Check::new("CPU Max Clock", "Unknown", CheckStatus::Info).with_description(""),
    }
}

/// The CPU category's checks, in declared order.
pub open spec fn spec_cpu_checks(p: ProbeModel) -> Seq<CheckModel> {
    Seq::empty()
        .push(spec_check_power_plan(p))
        .push(spec_dword_presence_check(p, HKEY_LOCAL_MACHINE, r"SYSTEM\CurrentControlSet\Control\Processor"@, "Capabilities"@, "C-States"@, "Configured"@, "Default"@, CheckStatus::Info, CheckStatus::Info, "CPU idle states. Disabling can reduce latency but increase power usage."@))
        .push(spec_dword_eq_check(p, HKEY_LOCAL_MACHINE, r"SYSTEM\CurrentControlSet\Control\Power\PowerSettings\54533251-82be-4824-96c1-47b60b740d00\0cc5b647-c1df-4637-891a-dec35c318583"@, "ValueMax"@, 0u32, "Core Parking"@, "Disabled"@, "Enabled"@, CheckStatus::Optimal, CheckStatus::Warning, "Disabling core parking keeps all CPU cores active."@))
        .push(spec_dword_flag2_check(p, HKEY_LOCAL_MACHINE, r"SYSTEM\CurrentControlSet\Control\Power\PowerSettings\54533251-82be-4824-96c1-47b60b740d00\be337238-0d82-4146-a960-4f3749d470c7"@, "ValueMax"@, 1u32, 1u32, "Processor Boost Mode"@, "Enabled"@, "Disabled"@, CheckStatus::Optimal, CheckStatus::Warning, "CPU turbo boost for higher performance."@))
        .push(spec_check_processor_throttle(p))
        .push(spec_dword_eq_check(p, HKEY_LOCAL_MACHINE, r"SYSTEM\CurrentControlSet\Control\DeviceGuard"@, "EnableVirtualizationBasedSecurity"@, 1u32, "VBS (Virtualization-Based Security)"@, "Enabled"@, "Disabled"@, CheckStatus::Warning, CheckStatus::Optimal, "VBS can reduce performance. Disable if not needed."@))
        .push(spec_dword_eq_check(p, HKEY_LOCAL_MACHINE, r"SYSTEM\CurrentControlSet\Control\DeviceGuard\Scenarios\HypervisorEnforcedCodeIntegrity"@, "Enabled"@, 1u32, "HVCI (Memory Integrity)"@, "Enabled"@, "Disabled"@, CheckStatus::Warning, CheckStatus::Optimal, "HVCI adds CPU overhead. Disable for better performance."@))
        .push(spec_dword_presence_check(p, HKEY_LOCAL_MACHINE, r"SYSTEM\CurrentControlSet\Control\Session Manager\Memory Management"@, "FeatureSettingsOverride"@, "CPU Vulnerability Mitigations"@, "Modified"@, "Default"@, CheckStatus::Info, CheckStatus::Info, "Spectre/Meltdown mitigations. Can be disabled for performance."@))
        .push(spec_dword_presence_check(p, HKEY_LOCAL_MACHINE, r"SYSTEM\CurrentControlSet\Control\Session Manager\kernel"@, "HeteroSchedulerPolicy"@, "Heterogeneous Scheduler"@, "Configured"@, "Default"@, CheckStatus::Info, CheckStatus::Info, "Intel 12th gen+ hybrid architecture scheduler."@))
        .push(spec_check_smt_status(p))
        .push(spec_static_check("Intel Speed Shift (HWP)"@, "Supported"@, CheckStatus::Info, "Hardware-Controlled Performance States (Intel 6th gen+)."@))
        .push(spec_static_check("Thread Director"@, "Not Applicable"@, CheckStatus::Info, "Intel 12th gen+ thread scheduling optimization."@))
        .push(spec_dword_show_check(p, HKEY_LOCAL_MACHINE, r"SYSTEM\CurrentControlSet\Control\Power\PowerSettings\54533251-82be-4824-96c1-47b60b740d00\be337238-0d82-4146-a960-4f3749d470c7"@, "DefaultPowerSchemeValues"@, 0u32, ""@, "Processor Performance Boost Policy"@, CheckStatus::Info, ""@))
        .push(spec_dword_show_check(p, HKEY_LOCAL_MACHINE, r"SYSTEM\CurrentControlSet\Control\Power\PowerSettings\54533251-82be-4824-96c1-47b60b740d00\0cc5b647-c1df-4637-891a-dec35c318583"@, "ValueMin"@, 0u32, "%"@, "Core Parking Min Cores"@, CheckStatus::Info, "Minimum percentage of cores to keep unparked."@))
        .push(spec_static_check("Processor Performance Time Check"@, "System Default"@, CheckStatus::Info, "Interval for performance state evaluation."@))
        .push(spec_dword_show_check(p, HKEY_LOCAL_MACHINE, r"SYSTEM\CurrentControlSet\Control\Power\PowerSettings\54533251-82be-4824-96c1-47b60b740d00\06cadf0e-64ed-448a-8927-ce7bf90eb35d"@, "ValueMax"@, 60u32, "%"@, "Performance Increase Threshold"@, CheckStatus::Info, "CPU load threshold to increase performance state."@))
        .push(spec_dword_show_check(p, HKEY_LOCAL_MACHINE, r"SYSTEM\CurrentControlSet\Control\Power\PowerSettings\54533251-82be-4824-96c1-47b60b740d00\12a0ab44-fe28-4fa9-b3bd-4b64f44960a6"@, "ValueMax"@, 40u32, "%"@, "Performance Decrease Threshold"@, CheckStatus::Info, "CPU load threshold to decrease performance state."@))
        .push(spec_static_check("Idle Demote Threshold"@, "System Default"@, CheckStatus::Info, "Threshold to demote CPU to deeper idle state."@))
        .push(spec_static_check("Idle Promote Threshold"@, "System Default"@, CheckStatus::Info, "Threshold to promote CPU to shallower idle state."@))
        .push(spec_static_check("Maximum Processor Idle State"@, "C2"@, CheckStatus::Info, "Deepest C-state allowed. C0/C1 for lowest latency."@))
        .push(spec_static_check("Idle Time Check Interval"@, "System Default"@, CheckStatus::Info, "How often idle state is evaluated."@))
        .push(spec_static_check("Latency Hint Minimum"@, "System Default"@, CheckStatus::Info, "Minimum latency hint for processor."@))
        .push(spec_static_check("Latency Hint Performance"@, "System Default"@, CheckStatus::Info, "Performance vs. latency trade-off hint."@))
        .push(spec_static_check("Allow Processor Throttling"@, "Enabled"@, CheckStatus::Info, "Allows thermal throttling when needed."@))
        .push(spec_static_check("Processor Duty Cycling"@, "Disabled"@, CheckStatus::Info, "Active cooling vs. passive cooling policy."@))
        .push(spec_static_check("Intel Turbo Boost"@, "System Detected"@, CheckStatus::Info, "Intel Turbo Boost Technology status."@))
        .push(spec_static_check("AMD Turbo Core"@, "System Detected"@, CheckStatus::Info, "AMD Turbo Core Technology status."@))
        .push(spec_static_check("Default CPU Priority Class"@, "Normal"@, CheckStatus::Info, "Base priority class for processes."@))
        .push(spec_static_check("Processor Scheduling"@, "Programs"@, CheckStatus::Info, "Optimize for programs or background services."@))
        .push(spec_static_check("CPU Affinity Policy"@, "System Managed"@, CheckStatus::Info, "Default CPU core assignment policy."@))
        .push(spec_check_cpu_architecture(p))
        .push(spec_check_cpu_name(p))
        .push(spec_check_cpu_cores(p))
        .push(spec_check_cpu_threads(p))
        .push(spec_check_l2_cache(p))
        .push(spec_check_l3_cache(p))
        .push(spec_check_cpu_base_clock(p))
        .push(spec_check_cpu_max_clock(p))
}

/// Evaluates the CPU category.
pub fn run_cpu_checks(p: &Probe) -> (r: CategoryResults)
    ensures
        r@.name == "CPU"@,
        r@.checks == spec_cpu_checks(p@),
{
    let mut results = CategoryResults::new("CPU");
    results.add_check(check_power_plan(p));
    results.add_check(dword_presence_check(p, HKEY_LOCAL_MACHINE, r"SYSTEM\CurrentControlSet\Control\Processor", "Capabilities", "C-States", "Configured", "Default", CheckStatus::Info, CheckStatus::Info, "CPU idle states. Disabling can reduce latency but increase power usage."));
    results.add_check(dword_eq_check(p, HKEY_LOCAL_MACHINE, r"SYSTEM\CurrentControlSet\Control\Power\PowerSettings\54533251-82be-4824-96c1-47b60b740d00\0cc5b647-c1df-4637-891a-dec35c318583", "ValueMax", 0u32, "Core Parking", "Disabled", "Enabled", CheckStatus::Optimal, CheckStatus::Warning, "Disabling core parking keeps all CPU cores active."));
    results.add_check(dword_flag2_check(p, HKEY_LOCAL_MACHINE, r"SYSTEM\CurrentControlSet\Control\Power\PowerSettings\54533251-82be-4824-96c1-47b60b740d00\be337238-0d82-4146-a960-4f3749d470c7", "ValueMax", 1u32, 1u32, "Processor Boost Mode", "Enabled", "Disabled", CheckStatus::Optimal, CheckStatus::Warning, "CPU turbo boost for higher performance."));
    results.add_check(check_processor_throttle(p));
    results.add_check(dword_eq_check(p, HKEY_LOCAL_MACHINE, r"SYSTEM\CurrentControlSet\Control\DeviceGuard", "EnableVirtualizationBasedSecurity", 1u32, "VBS (Virtualization-Based Security)", "Enabled", "Disabled", CheckStatus::Warning, CheckStatus::Optimal, "VBS can reduce performance. Disable if not needed."));
    results.add_check(dword_eq_check(p, HKEY_LOCAL_MACHINE, r"SYSTEM\CurrentControlSet\Control\DeviceGuard\Scenarios\HypervisorEnforcedCodeIntegrity", "Enabled", 1u32, "HVCI (Memory Integrity)", "Enabled", "Disabled", CheckStatus::Warning, CheckStatus::Optimal, "HVCI adds CPU overhead. Disable for better performance."));
    results.add_check(dword_presence_check(p, HKEY_LOCAL_MACHINE, r"SYSTEM\CurrentControlSet\Control\Session Manager\Memory Management", "FeatureSettingsOverride", "CPU Vulnerability Mitigations", "Modified", "Default", CheckStatus::Info, CheckStatus::Info, "Spectre/Meltdown mitigations. Can be disabled for performance."));
    results.add_check(dword_presence_check(p, HKEY_LOCAL_MACHINE, r"SYSTEM\CurrentControlSet\Control\Session Manager\kernel", "HeteroSchedulerPolicy", "Heterogeneous Scheduler", "Configured", "Default", CheckStatus::Info, CheckStatus::Info, "Intel 12th gen+ hybrid architecture scheduler."));
    results.add_check(check_smt_status(p));
    results.add_check(static_check("Intel Speed Shift (HWP)", "Supported", CheckStatus::Info, "Hardware-Controlled Performance States (Intel 6th gen+)."));
    results.add_check(static_check("Thread Director", "Not Applicable", CheckStatus::Info, "Intel 12th gen+ thread scheduling optimization."));
    results.add_check(dword_show_check(p, HKEY_LOCAL_MACHINE, r"SYSTEM\CurrentControlSet\Control\Power\PowerSettings\54533251-82be-4824-96c1-47b60b740d00\be337238-0d82-4146-a960-4f3749d470c7", "DefaultPowerSchemeValues", 0u32, "", "Processor Performance Boost Policy", CheckStatus::Info, ""));
    results.add_check(dword_show_check(p, HKEY_LOCAL_MACHINE, r"SYSTEM\CurrentControlSet\Control\Power\PowerSettings\54533251-82be-4824-96c1-47b60b740d00\0cc5b647-c1df-4637-891a-dec35c318583", "ValueMin", 0u32, "%", "Core Parking Min Cores", CheckStatus::Info, "Minimum percentage of cores to keep unparked."));
    results.add_check(static_check("Processor Performance Time Check", "System Default", CheckStatus::Info, "Interval for performance state evaluation."));
    results.add_check(dword_show_check(p, HKEY_LOCAL_MACHINE, r"SYSTEM\CurrentControlSet\Control\Power\PowerSettings\54533251-82be-4824-96c1-47b60b740d00\06cadf0e-64ed-448a-8927-ce7bf90eb35d", "ValueMax", 60u32, "%", "Performance Increase Threshold", CheckStatus::Info, "CPU load threshold to increase performance state."));
    results.add_check(dword_show_check(p, HKEY_LOCAL_MACHINE, r"SYSTEM\CurrentControlSet\Control\Power\PowerSettings\54533251-82be-4824-96c1-47b60b740d00\12a0ab44-fe28-4fa9-b3bd-4b64f44960a6", "ValueMax", 40u32, "%", "Performance Decrease Threshold", CheckStatus::Info, "CPU load threshold to decrease performance state."));
    results.add_check(static_check("Idle Demote Threshold", "System Default", CheckStatus::Info, "Threshold to demote CPU to deeper idle state."));
    results.add_check(static_check("Idle Promote Threshold", "System Default", CheckStatus::Info, "Threshold to promote CPU to shallower idle state."));
    results.add_check(static_check("Maximum Processor Idle State", "C2", CheckStatus::Info, "Deepest C-state allowed. C0/C1 for lowest latency."));
    results.add_check(static_check("Idle Time Check Interval", "System Default", CheckStatus::Info, "How often idle state is evaluated."));
    results.add_check(static_check("Latency Hint Minimum", "System Default", CheckStatus::Info, "Minimum latency hint for processor."));
    results.add_check(static_check("Latency Hint Performance", "System Default", CheckStatus::Info, "Performance vs. latency trade-off hint."));
    results.add_check(static_check("Allow Processor Throttling", "Enabled", CheckStatus::Info, "Allows thermal throttling when needed."));
    results.add_check(static_check("Processor Duty Cycling", "Disabled", CheckStatus::Info, "Active cooling vs. passive cooling policy."));
    results.add_check(static_check("Intel Turbo Boost", "System Detected", CheckStatus::Info, "Intel Turbo Boost Technology status."));
    results.add_check(static_check("AMD Turbo Core", "System Detected", CheckStatus::Info, "AMD Turbo Core Technology status."));
    results.add_check(static_check("Default CPU Priority Class", "Normal", CheckStatus::Info, "Base priority class for processes."));
    results.add_check(static_check("Processor Scheduling", "Programs", CheckStatus::Info, "Optimize for programs or background services."));
    results.add_check(static_check("CPU Affinity Policy", "System Managed", CheckStatus::Info, "Default CPU core assignment policy."));
    results.add_check(check_cpu_architecture(p));
    results.add_check(check_cpu_name(p));
    results.add_check(check_cpu_cores(p));
    results.add_check(check_cpu_threads(p));
    results.add_check(check_l2_cache(p));
    results.add_check(check_l3_cache(p));
    results.add_check(check_cpu_base_clock(p));
    results.add_check(check_cpu_max_clock(p));
    results
}

} // verus!
