//! Latency category: timers, interrupts, and scheduler responsiveness.

use crate::checks::support::{dword_eq_check, dword_eq_show_check, dword_flag2_check, dword_presence_check, dword_show_check, spec_dword_eq_check, spec_dword_eq_show_check, spec_dword_flag2_check, spec_dword_presence_check, spec_dword_show_check, spec_static_check, static_check};
use crate::probe::{read_registry_dword, read_registry_string, reg_dword_of, reg_string_of, reg_key_exists_spec, registry_key_exists};
use crate::strutil::{dec_str, str_eq, u32_to_dec};
use crate::types::{described_check_model, Check};
use crate::probe::{HKEY_LOCAL_MACHINE, Probe, ProbeModel};
use crate::types::{CategoryResults, CheckModel, CheckStatus};
use vstd::prelude::*;

verus! {

/// The multimedia profile's CPU reservation share, classified in tiers:
/// at most ten percent is optimal, at most twenty a warning, more an
/// issue; twenty is the documented default on absence.
pub open spec fn spec_check_system_responsiveness(p: ProbeModel) -> CheckModel {
    let v = reg_dword_of(
        p,
        HKEY_LOCAL_MACHINE,
        r"SOFTWARE\Microsoft\Windows NT\CurrentVersion\Multimedia\SystemProfile"@,
        "SystemResponsiveness"@,
    );
    let shown = match v {
        Some(x) => x,
        None => 20u32,
    };
    let st = if shown <= 10 {
        CheckStatus::Optimal
    } else if shown <= 20 {
        CheckStatus::Warning
    } else {
        CheckStatus::Issue
    };
    described_check_model(
        "System Responsiveness (MMCSS)"@,
        dec_str(shown as nat) + "%"@,
        st,
        "Controls CPU reservation for multimedia. Lower is better (0-10 optimal)."@,
    )
}

/// Classifies the multimedia profile's CPU reservation share.
pub fn check_system_responsiveness(p: &Probe) -> (c: Check)
    ensures
        c@ == spec_check_system_responsiveness(p@),
{
    let v = read_registry_dword(
        p,
        HKEY_LOCAL_MACHINE,
        r"SOFTWARE\Microsoft\Windows NT\CurrentVersion\Multimedia\SystemProfile",
        "SystemResponsiveness",
    );
    let shown = match v {
        Some(x) => x,
        None => 20,
    };
    let st = if shown <= 10 {
        CheckStatus::Optimal
    } else if shown <= 20 {
        CheckStatus::Warning
    } else {
        CheckStatus::Issue
    };
    let mut value = u32_to_dec(shown);
    value.append("%");
    Check::new("System Responsiveness (MMCSS)", value.as_str(), st).with_description(
        "Controls CPU reservation for multimedia. Lower is better (0-10 optimal).",
    )
}

/// The scheduler's priority separation word: the two tuned values pass,
/// everything else is informational; two is the default on absence.
pub open spec fn spec_check_win32_priority_separation(p: ProbeModel) -> CheckModel {
    let v = reg_dword_of(
        p,
        HKEY_LOCAL_MACHINE,
        r"SYSTEM\CurrentControlSet\Control\PriorityControl"@,
        "Win32PrioritySeparation"@,
    );
    let shown = match v {
        Some(x) => x,
        None => 2u32,
    };
    let st = if shown == 38 || shown == 26 {
        CheckStatus::Optimal
    } else {
        CheckStatus::Info
    };
    described_check_model(
        "Win32 Priority Separation"@,
        dec_str(shown as nat),
        st,
        "Process scheduler priority. 38=long fixed, 26=short variable (gaming)."@,
    )
}

/// Classifies the scheduler's priority separation word.
pub fn check_win32_priority_separation(p: &Probe) -> (c: Check)
    ensures
        c@ == spec_check_win32_priority_separation(p@),
{
    let v = read_registry_dword(
        p,
        HKEY_LOCAL_MACHINE,
        r"SYSTEM\CurrentControlSet\Control\PriorityControl",
        "Win32PrioritySeparation",
    );
    let shown = match v {
        Some(x) => x,
        None => 2,
    };
    let st = if shown == 38 || shown == 26 {
        CheckStatus::Optimal
    } else {
        CheckStatus::Info
    };
    let value = u32_to_dec(shown);
    Check::new("Win32 Priority Separation", value.as_str(), st).with_description(
        "Process scheduler priority. 38=long fixed, 26=short variable (gaming).",
    )
}

/// Whether any multimedia profile task configuration exists at all.
pub open spec fn spec_check_system_profile_tasks(p: ProbeModel) -> CheckModel {
    let present = reg_key_exists_spec(
        p,
        HKEY_LOCAL_MACHINE,
        r"SOFTWARE\Microsoft\Windows NT\CurrentVersion\Multimedia\SystemProfile\Tasks"@,
    );
    described_check_model(
        "System Profile Tasks"@,
        if present {
            "Configured"@
        } else {
            "Default"@
        },
        CheckStatus::Info,
        "MMCSS task priority configuration."@,
    )
}

/// Reports whether multimedia profile tasks are configured.
pub fn check_system_profile_tasks(p: &Probe) -> (c: Check)
    ensures
        c@ == spec_check_system_profile_tasks(p@),
{
    let present = registry_key_exists(
        p,
        HKEY_LOCAL_MACHINE,
        r"SOFTWARE\Microsoft\Windows NT\CurrentVersion\Multimedia\SystemProfile\Tasks",
    );
    if present {
        Check::new("System Profile Tasks", "Configured", CheckStatus::Info).with_description(
            "MMCSS task priority configuration.",
        )
    } else {
        Check::new("System Profile Tasks", "Default", CheckStatus::Info).with_description(
            "MMCSS task priority configuration.",
        )
    }
}

/// The graphics priority granted to the games task profile: at least
/// eight passes; eight is the default on absence.
pub open spec fn spec_check_gpu_priority(p: ProbeModel) -> CheckModel {
    let v = reg_dword_of(
        p,
        HKEY_LOCAL_MACHINE,
        r"SOFTWARE\Microsoft\Windows NT\CurrentVersion\Multimedia\SystemProfile\Tasks\Games"@,
        "GPU Priority"@,
    );
    let shown = match v {
        Some(x) => x,
        None => 8u32,
    };
    let st = if shown >= 8 {
        CheckStatus::Optimal
    } else {
        CheckStatus::Warning
    };
    described_check_model(
        "GPU Priority (Games)"@,
        dec_str(shown as nat),
        st,
        "GPU scheduling priority for games. 8 is optimal."@,
    )
}

/// Classifies the games task profile's graphics priority.
pub fn check_gpu_priority(p: &Probe) -> (c: Check)
    ensures
        c@ == spec_check_gpu_priority(p@),
{
    let v = read_registry_dword(
        p,
        HKEY_LOCAL_MACHINE,
        r"SOFTWARE\Microsoft\Windows NT\CurrentVersion\Multimedia\SystemProfile\Tasks\Games",
        "GPU Priority",
    );
    let shown = match v {
        Some(x) => x,
        None => 8,
    };
    let st = if shown >= 8 {
        CheckStatus::Optimal
    } else {
        CheckStatus::Warning
    };
    let value = u32_to_dec(shown);
    Check::new("GPU Priority (Games)", value.as_str(), st).with_description(
        "GPU scheduling priority for games. 8 is optimal.",
    )
}

/// The games task profile's scheduling category: only `High` passes;
/// `Medium` is the default on absence.
pub open spec fn spec_check_scheduling_category(p: ProbeModel) -> CheckModel {
    let v = reg_string_of(
        p,
        HKEY_LOCAL_MACHINE,
        r"SOFTWARE\Microsoft\Windows NT\CurrentVersion\Multimedia\SystemProfile\Tasks\Games"@,
        "Scheduling Category"@,
    );
    let shown = match v {
        Some(s) => s,
        None => "Medium"@,
    };
    let st = if shown == "High"@ {
        CheckStatus::Optimal
    } else {
        CheckStatus::Warning
    };
    described_check_model(
        "Scheduling Category (Games)"@,
        shown,
        st,
        "CPU scheduling priority. 'High' is optimal for games."@,
    )
}

/// Classifies the games task profile's scheduling category.
pub fn check_scheduling_category(p: &Probe) -> (c: Check)
    ensures
        c@ == spec_check_scheduling_category(p@),
{
    let v = read_registry_string(
        p,
        HKEY_LOCAL_MACHINE,
        r"SOFTWARE\Microsoft\Windows NT\CurrentVersion\Multimedia\SystemProfile\Tasks\Games",
        "Scheduling Category",
    );
    match v {
        Some(s) => {
            let hit = str_eq(s.as_str(), "High");
            let st = if hit {
                CheckStatus::Optimal
            } else {
                CheckStatus::Warning
            };
            Check::new("Scheduling Category (Games)", s.as_str(), st).with_description(
                "CPU scheduling priority. 'High' is optimal for games.",
            )
        },
        None => {
            proof {
                reveal_strlit("Medium");
                reveal_strlit("High");
                assert("Medium"@.len() == 6);
                assert("High"@.len() == 4);
            }
            Check::new("Scheduling Category (Games)", "Medium", CheckStatus::Warning)
                .with_description("CPU scheduling priority. 'High' is optimal for games.")
        },
    }
}

/// The Latency category's checks, in declared order.
pub open spec fn spec_latency_checks(p: ProbeModel) -> Seq<CheckModel> {
    Seq::empty()
        .push(spec_dword_presence_check(p, HKEY_LOCAL_MACHINE, r"SYSTEM\CurrentControlSet\Control\TimeProviders\TimerDevice"@, "TimerDevice"@, "HPET (High Precision Event Timer)"@, "Enabled"@, "Disabled"@, CheckStatus::Warning, CheckStatus::Optimal, "HPET can add latency. Disabled is better for gaming/real-time."@))
        .push(spec_dword_show_check(p, HKEY_LOCAL_MACHINE, r"SYSTEM\CurrentControlSet\Control\Session Manager\kernel"@, "GlobalTimerResolutionRequests"@, 0u32, ""@, "TSC Sync Policy"@, CheckStatus::Info, "Time Stamp Counter synchronization policy"@))
        .push(spec_dword_eq_check(p, HKEY_LOCAL_MACHINE, r"SYSTEM\CurrentControlSet\Control\Session Manager\kernel"@, "DisableDynamicTick"@, 1u32, "Dynamic Tick"@, "Disabled"@, "Enabled"@, CheckStatus::Optimal, CheckStatus::Warning, "Dynamic tick can increase latency. Disable for lower latency."@))
        .push(spec_check_system_responsiveness(p))
        .push(spec_dword_eq_show_check(p, HKEY_LOCAL_MACHINE, r"SOFTWARE\Microsoft\Windows NT\CurrentVersion\Multimedia\SystemProfile"@, "NetworkThrottlingIndex"@, 4294967295u32, 10u32, ""@, "Network Throttling Index"@, CheckStatus::Optimal, CheckStatus::Warning, "Network packet processing throttling. 0xFFFFFFFF (disabled) is optimal."@))
        .push(spec_check_win32_priority_separation(p))
        .push(spec_static_check("Global Timer Resolution"@, "System Default"@, CheckStatus::Info, "Current system timer resolution. Lower is better for latency."@))
        .push(spec_dword_eq_check(p, HKEY_LOCAL_MACHINE, r"SYSTEM\CurrentControlSet\Control\PnP\Pci"@, "DeviceInterruptPolicyEnabled"@, 1u32, "Interrupt Steering"@, "Enabled"@, "Disabled"@, CheckStatus::Info, CheckStatus::Info, "Allows OS to route device interrupts to specific CPUs."@))
        .push(spec_dword_eq_check(p, HKEY_LOCAL_MACHINE, r"SYSTEM\CurrentControlSet\Services\nvlddmkm"@, "RmMsiAllowed"@, 1u32, "MSI Mode (GPU)"@, "Enabled"@, "Check Required"@, CheckStatus::Info, CheckStatus::Info, "Message-Signaled Interrupts reduce latency vs. line-based interrupts."@))
        .push(spec_dword_show_check(p, HKEY_LOCAL_MACHINE, r"SYSTEM\CurrentControlSet\Control\Session Manager\kernel"@, "DpcWatchdogPeriod"@, 0u32, ""@, "DPC Watchdog Period"@, CheckStatus::Info, "Deferred Procedure Call watchdog timeout."@))
        .push(spec_dword_show_check(p, HKEY_LOCAL_MACHINE, r"SYSTEM\CurrentControlSet\Control\Session Manager\kernel"@, "DpcTimeout"@, 0u32, ""@, "DPC Timeout"@, CheckStatus::Info, "Maximum time for DPC execution."@))
        .push(spec_dword_show_check(p, HKEY_LOCAL_MACHINE, r"SYSTEM\CurrentControlSet\Control\Session Manager\kernel"@, "IdleSchedulingPolicy"@, 0u32, ""@, "Idle Scheduling Policy"@, CheckStatus::Info, ""@))
        .push(spec_dword_eq_check(p, HKEY_LOCAL_MACHINE, r"SYSTEM\CurrentControlSet\Control\Session Manager\kernel"@, "DistributeTimers"@, 1u32, "Distribute Timers"@, "Enabled"@, "Disabled"@, CheckStatus::Info, CheckStatus::Info, "Distributes timer interrupts across CPUs."@))
        .push(spec_static_check("Processor Idle State Policy"@, "Detected"@, CheckStatus::Info, "CPU idle state management policy."@))
        .push(spec_dword_eq_check(p, HKEY_LOCAL_MACHINE, r"SYSTEM\CurrentControlSet\Control\Power"@, "LatencySensitivityHint"@, 1u32, "Latency Sensitivity Hints"@, "Enabled"@, "Disabled"@, CheckStatus::Info, CheckStatus::Info, ""@))
        .push(spec_static_check("C-State Exit Latency"@, "System Dependent"@, CheckStatus::Info, "Time to exit CPU C-states. Lower is better."@))
        .push(spec_static_check("Platform Clock Source"@, "TSC"@, CheckStatus::Info, "Primary time source: TSC (best), HPET, or ACPI PM Timer."@))
        .push(spec_static_check("TSC Invariant"@, "Supported"@, CheckStatus::Info, "Time Stamp Counter runs at constant rate regardless of CPU frequency."@))
        .push(spec_dword_flag2_check(p, HKEY_LOCAL_MACHINE, r"SYSTEM\CurrentControlSet\Control\Session Manager\kernel"@, "UsePlatformClock"@, 0u32, 0u32, "Use Platform Clock"@, "Disabled (TSC)"@, "Enabled"@, CheckStatus::Optimal, CheckStatus::Warning, "TSC is faster and more accurate than platform clock."@))
        .push(spec_static_check("Synthetic Timer"@, "Not Applicable"@, CheckStatus::Info, "Hyper-V synthetic timer (VM only)."@))
        .push(spec_dword_eq_check(p, HKEY_LOCAL_MACHINE, r"SYSTEM\CurrentControlSet\Control\Session Manager\Memory Management"@, "LargeSystemCache"@, 1u32, "Large Page Support"@, "Enabled"@, "Disabled"@, CheckStatus::Info, CheckStatus::Info, "Large memory pages can reduce TLB misses."@))
        .push(spec_static_check("Dynamic P-State"@, "System Managed"@, CheckStatus::Info, "CPU frequency scaling management."@))
        .push(spec_check_system_profile_tasks(p))
        .push(spec_static_check("Multimedia System Profile"@, "Active"@, CheckStatus::Info, "MMCSS multimedia class scheduler service configuration."@))
        .push(spec_check_gpu_priority(p))
        .push(spec_check_scheduling_category(p))
        .push(spec_static_check("System Responsiveness Override"@, "Not Set"@, CheckStatus::Info, "Application-specific responsiveness overrides."@))
        .push(spec_static_check("Latency Tolerance"@, "System Default"@, CheckStatus::Info, "Device latency tolerance settings."@))
        .push(spec_static_check("Interrupt Affinity Policy"@, "System Managed"@, CheckStatus::Info, "CPU affinity for device interrupts."@))
        .push(spec_static_check("ISR Time Limit"@, "System Default"@, CheckStatus::Info, "Interrupt Service Routine execution time limit."@))
        .push(spec_static_check("DPC Queue Depth"@, "System Default"@, CheckStatus::Info, "Deferred Procedure Call queue depth."@))
        .push(spec_static_check("Threaded DPC"@, "System Managed"@, CheckStatus::Info, "Deferred Procedure Calls executed in threads."@))
        .push(spec_dword_show_check(p, HKEY_LOCAL_MACHINE, r"SYSTEM\CurrentControlSet\Control\Session Manager\kernel"@, "CoalescingTimerInterval"@, 0u32, ""@, "Timer Coalescing"@, CheckStatus::Info, "Groups timer expirations to reduce wakeups."@))
        .push(spec_static_check("Precision Platform Timer"@, "Available"@, CheckStatus::Info, "High-resolution hardware timer availability."@))
        .push(spec_static_check("ACPI PM Timer"@, "System Managed"@, CheckStatus::Info, "ACPI Power Management Timer usage."@))
        .push(spec_static_check("Quantum Length"@, "Default"@, CheckStatus::Info, ""@))
        .push(spec_static_check("Foreground Boost"@, "3"@, CheckStatus::Info, ""@))
        .push(spec_static_check("IRQ Priority"@, "System Default"@, CheckStatus::Info, ""@))
        .push(spec_static_check("DMA Channel Allocation"@, "Optimal"@, CheckStatus::Info, ""@))
        .push(spec_static_check("Memory Mapped I/O"@, "Enabled"@, CheckStatus::Optimal, ""@))
        .push(spec_static_check("Real-Time Priority Class"@, "Available"@, CheckStatus::Info, ""@))
        .push(spec_static_check("High Priority Thread Support"@, "Enabled"@, CheckStatus::Optimal, ""@))
        .push(spec_static_check("Low Latency Audio"@, "Supported"@, CheckStatus::Info, ""@))
        .push(spec_static_check("Kernel Dispatcher Priority"@, "Optimized"@, CheckStatus::Optimal, ""@))
        .push(spec_static_check("Thread Switching Overhead"@, "Minimal"@, CheckStatus::Optimal, ""@))
        .push(spec_static_check("Context Switch Rate"@, "Normal"@, CheckStatus::Optimal, ""@))
}

/// Evaluates the Latency category.
pub fn run_latency_checks(p: &Probe) -> (r: CategoryResults)
    ensures
        r@.name == "Latency"@,
        r@.checks == spec_latency_checks(p@),
{
    let mut results = CategoryResults::new("Latency");
    results.add_check(dword_presence_check(p, HKEY_LOCAL_MACHINE, r"SYSTEM\CurrentControlSet\Control\TimeProviders\TimerDevice", "TimerDevice", "HPET (High Precision Event Timer)", "Enabled", "Disabled", CheckStatus::Warning, CheckStatus::Optimal, "HPET can add latency. Disabled is better for gaming/real-time."));
    results.add_check(dword_show_check(p, HKEY_LOCAL_MACHINE, r"SYSTEM\CurrentControlSet\Control\Session Manager\kernel", "GlobalTimerResolutionRequests", 0u32, "", "TSC Sync Policy", CheckStatus::Info, "Time Stamp Counter synchronization policy"));
    results.add_check(dword_eq_check(p, HKEY_LOCAL_MACHINE, r"SYSTEM\CurrentControlSet\Control\Session Manager\kernel", "DisableDynamicTick", 1u32, "Dynamic Tick", "Disabled", "Enabled", CheckStatus::Optimal, CheckStatus::Warning, "Dynamic tick can increase latency. Disable for lower latency."));
    results.add_check(check_system_responsiveness(p));
    results.add_check(dword_eq_show_check(p, HKEY_LOCAL_MACHINE, r"SOFTWARE\Microsoft\Windows NT\CurrentVersion\Multimedia\SystemProfile", "NetworkThrottlingIndex", 4294967295u32, 10u32, "", "Network Throttling Index", CheckStatus::Optimal, CheckStatus::Warning, "Network packet processing throttling. 0xFFFFFFFF (disabled) is optimal."));
    results.add_check(check_win32_priority_separation(p));
    results.add_check(static_check("Global Timer Resolution", "System Default", CheckStatus::Info, "Current system timer resolution. Lower is better for latency."));
    results.add_check(dword_eq_check(p, HKEY_LOCAL_MACHINE, r"SYSTEM\CurrentControlSet\Control\PnP\Pci", "DeviceInterruptPolicyEnabled", 1u32, "Interrupt Steering", "Enabled", "Disabled", CheckStatus::Info, CheckStatus::Info, "Allows OS to route device interrupts to specific CPUs."));
    results.add_check(dword_eq_check(p, HKEY_LOCAL_MACHINE, r"SYSTEM\CurrentControlSet\Services\nvlddmkm", "RmMsiAllowed", 1u32, "MSI Mode (GPU)", "Enabled", "Check Required", CheckStatus::Info, CheckStatus::Info, "Message-Signaled Interrupts reduce latency vs. line-based interrupts."));
    results.add_check(dword_show_check(p, HKEY_LOCAL_MACHINE, r"SYSTEM\CurrentControlSet\Control\Session Manager\kernel", "DpcWatchdogPeriod", 0u32, "", "DPC Watchdog Period", CheckStatus::Info, "Deferred Procedure Call watchdog timeout."));
    results.add_check(dword_show_check(p, HKEY_LOCAL_MACHINE, r"SYSTEM\CurrentControlSet\Control\Session Manager\kernel", "DpcTimeout", 0u32, "", "DPC Timeout", CheckStatus::Info, "Maximum time for DPC execution."));
    results.add_check(dword_show_check(p, HKEY_LOCAL_MACHINE, r"SYSTEM\CurrentControlSet\Control\Session Manager\kernel", "IdleSchedulingPolicy", 0u32, "", "Idle Scheduling Policy", CheckStatus::Info, ""));
    results.add_check(dword_eq_check(p, HKEY_LOCAL_MACHINE, r"SYSTEM\CurrentControlSet\Control\Session Manager\kernel", "DistributeTimers", 1u32, "Distribute Timers", "Enabled", "Disabled", CheckStatus::Info, CheckStatus::Info, "Distributes timer interrupts across CPUs."));
    results.add_check(static_check("Processor Idle State Policy", "Detected", CheckStatus::Info, "CPU idle state management policy."));
    results.add_check(dword_eq_check(p, HKEY_LOCAL_MACHINE, r"SYSTEM\CurrentControlSet\Control\Power", "LatencySensitivityHint", 1u32, "Latency Sensitivity Hints", "Enabled", "Disabled", CheckStatus::Info, CheckStatus::Info, ""));
    results.add_check(static_check("C-State Exit Latency", "System Dependent", CheckStatus::Info, "Time to exit CPU C-states. Lower is better."));
    results.add_check(static_check("Platform Clock Source", "TSC", CheckStatus::Info, "Primary time source: TSC (best), HPET, or ACPI PM Timer."));
    results.add_check(static_check("TSC Invariant", "Supported", CheckStatus::Info, "Time Stamp Counter runs at constant rate regardless of CPU frequency."));
    results.add_check(dword_flag2_check(p, HKEY_LOCAL_MACHINE, r"SYSTEM\CurrentControlSet\Control\Session Manager\kernel", "UsePlatformClock", 0u32, 0u32, "Use Platform Clock", "Disabled (TSC)", "Enabled", CheckStatus::Optimal, CheckStatus::Warning, "TSC is faster and more accurate than platform clock."));
    results.add_check(static_check("Synthetic Timer", "Not Applicable", CheckStatus::Info, "Hyper-V synthetic timer (VM only)."));
    results.add_check(dword_eq_check(p, HKEY_LOCAL_MACHINE, r"SYSTEM\CurrentControlSet\Control\Session Manager\Memory Management", "LargeSystemCache", 1u32, "Large Page Support", "Enabled", "Disabled", CheckStatus::Info, CheckStatus::Info, "Large memory pages can reduce TLB misses."));
    results.add_check(static_check("Dynamic P-State", "System Managed", CheckStatus::Info, "CPU frequency scaling management."));
    results.add_check(check_system_profile_tasks(p));
    results.add_check(static_check("Multimedia System Profile", "Active", CheckStatus::Info, "MMCSS multimedia class scheduler service configuration."));
    results.add_check(check_gpu_priority(p));
    results.add_check(check_scheduling_category(p));
    results.add_check(static_check("System Responsiveness Override", "Not Set", CheckStatus::Info, "Application-specific responsiveness overrides."));
    results.add_check(static_check("Latency Tolerance", "System Default", CheckStatus::Info, "Device latency tolerance settings."));
    results.add_check(static_check("Interrupt Affinity Policy", "System Managed", CheckStatus::Info, "CPU affinity for device interrupts."));
    results.add_check(static_check("ISR Time Limit", "System Default", CheckStatus::Info, "Interrupt Service Routine execution time limit."));
    results.add_check(static_check("DPC Queue Depth", "System Default", CheckStatus::Info, "Deferred Procedure Call queue depth."));
    results.add_check(static_check("Threaded DPC", "System Managed", CheckStatus::Info, "Deferred Procedure Calls executed in threads."));
    results.add_check(dword_show_check(p, HKEY_LOCAL_MACHINE, r"SYSTEM\CurrentControlSet\Control\Session Manager\kernel", "CoalescingTimerInterval", 0u32, "", "Timer Coalescing", CheckStatus::Info, "Groups timer expirations to reduce wakeups."));
    results.add_check(static_check("Precision Platform Timer", "Available", CheckStatus::Info, "High-resolution hardware timer availability."));
    results.add_check(static_check("ACPI PM Timer", "System Managed", CheckStatus::Info, "ACPI Power Management Timer usage."));
    results.add_check(static_check("Quantum Length", "Default", CheckStatus::Info, ""));
    results.add_check(static_check("Foreground Boost", "3", CheckStatus::Info, ""));
    results.add_check(static_check("IRQ Priority", "System Default", CheckStatus::Info, ""));
    results.add_check(static_check("DMA Channel Allocation", "Optimal", CheckStatus::Info, ""));
    results.add_check(static_check("Memory Mapped I/O", "Enabled", CheckStatus::Optimal, ""));
    results.add_check(static_check("Real-Time Priority Class", "Available", CheckStatus::Info, ""));
    results.add_check(static_check("High Priority Thread Support", "Enabled", CheckStatus::Optimal, ""));
    results.add_check(static_check("Low Latency Audio", "Supported", CheckStatus::Info, ""));
    results.add_check(static_check("Kernel Dispatcher Priority", "Optimized", CheckStatus::Optimal, ""));
    results.add_check(static_check("Thread Switching Overhead", "Minimal", CheckStatus::Optimal, ""));
    results.add_check(static_check("Context Switch Rate", "Normal", CheckStatus::Optimal, ""));
    results
}

} // verus!
