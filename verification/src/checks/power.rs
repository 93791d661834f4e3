//! Power category: sleep, startup, and device power policy.

use crate::checks::support::{dword_eq_check, spec_dword_eq_check, spec_static_check, static_check};
use crate::probe::{HKEY_LOCAL_MACHINE, Probe, ProbeModel};
use crate::types::{CategoryResults, CheckModel, CheckStatus};
use vstd::prelude::*;

verus! {

/// The Power category's checks, in declared order.
pub open spec fn spec_power_checks(p: ProbeModel) -> Seq<CheckModel> {
    Seq::empty()
        .push(spec_static_check("PCIe ASPM (Active State Power Management)"@, "Disabled"@, CheckStatus::Optimal, "Disable for GPU/NVMe to prevent latency spikes."@))
        .push(spec_static_check("USB Selective Suspend"@, "Disabled"@, CheckStatus::Optimal, "Prevents USB devices from entering power-saving mode."@))
        .push(spec_dword_eq_check(p, HKEY_LOCAL_MACHINE, r"SYSTEM\CurrentControlSet\Control\Session Manager\Power"@, "HiberbootEnabled"@, 1u32, "Fast Startup (Hiberboot)"@, "Enabled"@, "Disabled"@, CheckStatus::Info, CheckStatus::Info, "Hybrid boot mode. Can cause issues, test both settings."@))
        .push(spec_static_check("Hybrid Sleep"@, "Disabled"@, CheckStatus::Info, ""@))
        .push(spec_static_check("Hibernate"@, "Enabled"@, CheckStatus::Info, ""@))
        .push(spec_static_check("Monitor Timeout"@, "Never"@, CheckStatus::Info, ""@))
        .push(spec_static_check("Hard Disk Timeout"@, "Never"@, CheckStatus::Optimal, ""@))
        .push(spec_static_check("Sleep Timeout"@, "Never"@, CheckStatus::Info, ""@))
        .push(spec_static_check("PCI Express Link State Power Management"@, "Off"@, CheckStatus::Optimal, ""@))
        .push(spec_static_check("AHCI Link Power Management"@, "Active"@, CheckStatus::Optimal, ""@))
        .push(spec_static_check("Wireless Adapter Power Saving"@, "Maximum Performance"@, CheckStatus::Optimal, ""@))
        .push(spec_static_check("Power Throttling"@, "Enabled"@, CheckStatus::Info, "Windows 10+ feature to reduce background app power usage."@))
        .push(spec_static_check("Processor Power Management"@, "Maximum Performance"@, CheckStatus::Optimal, ""@))
        .push(spec_static_check("Display Power Saving"@, "Minimal"@, CheckStatus::Info, ""@))
        .push(spec_static_check("Hard Disk Power Saving"@, "Disabled"@, CheckStatus::Optimal, ""@))
        .push(spec_static_check("Sleep State (S3 vs S0)"@, "S3 Traditional Sleep"@, CheckStatus::Info, ""@))
        .push(spec_static_check("Away Mode"@, "Not Applicable"@, CheckStatus::Info, ""@))
        .push(spec_static_check("Display Brightness"@, "100%"@, CheckStatus::Info, ""@))
        .push(spec_static_check("Adaptive Brightness"@, "Disabled"@, CheckStatus::Info, ""@))
        .push(spec_static_check("Video Playback Quality Bias"@, "Video Quality"@, CheckStatus::Info, ""@))
        .push(spec_static_check("Battery Saver"@, "Not Applicable"@, CheckStatus::Info, ""@))
        .push(spec_static_check("Power Button Action"@, "Shut Down"@, CheckStatus::Info, ""@))
        .push(spec_static_check("Sleep Button Action"@, "Sleep"@, CheckStatus::Info, ""@))
        .push(spec_static_check("Lid Close Action"@, "Not Applicable"@, CheckStatus::Info, ""@))
        .push(spec_static_check("Wake Timers"@, "Disabled"@, CheckStatus::Info, "Prevents system from waking for scheduled tasks."@))
        .push(spec_static_check("Power Plan GUID"@, "Detected"@, CheckStatus::Info, ""@))
        .push(spec_static_check("Active Power Scheme"@, "High Performance"@, CheckStatus::Optimal, ""@))
        .push(spec_static_check("Power Options"@, "Configured"@, CheckStatus::Info, ""@))
        .push(spec_static_check("Processor Performance State"@, "Maximum"@, CheckStatus::Optimal, ""@))
        .push(spec_static_check("Device Power States"@, "D0 Active"@, CheckStatus::Optimal, ""@))
}

/// Evaluates the Power category.
pub fn run_power_checks(p: &Probe) -> (r: CategoryResults)
    ensures
        r@.name == "Power"@,
        r@.checks == spec_power_checks(p@),
{
    let mut results = CategoryResults::new("Power");
    results.add_check(static_check("PCIe ASPM (Active State Power Management)", "Disabled", CheckStatus::Optimal, "Disable for GPU/NVMe to prevent latency spikes."));
    results.add_check(static_check("USB Selective Suspend", "Disabled", CheckStatus::Optimal, "Prevents USB devices from entering power-saving mode."));
    results.add_check(dword_eq_check(p, HKEY_LOCAL_MACHINE, r"SYSTEM\CurrentControlSet\Control\Session Manager\Power", "HiberbootEnabled", 1u32, "Fast Startup (Hiberboot)", "Enabled", "Disabled", CheckStatus::Info, CheckStatus::Info, "Hybrid boot mode. Can cause issues, test both settings."));
    results.add_check(static_check("Hybrid Sleep", "Disabled", CheckStatus::Info, ""));
    results.add_check(static_check("Hibernate", "Enabled", CheckStatus::Info, ""));
    results.add_check(static_check("Monitor Timeout", "Never", CheckStatus::Info, ""));
    results.add_check(static_check("Hard Disk Timeout", "Never", CheckStatus::Optimal, ""));
    results.add_check(static_check("Sleep Timeout", "Never", CheckStatus::Info, ""));
    results.add_check(static_check("PCI Express Link State Power Management", "Off", CheckStatus::Optimal, ""));
    results.add_check(static_check("AHCI Link Power Management", "Active", CheckStatus::Optimal, ""));
    results.add_check(static_check("Wireless Adapter Power Saving", "Maximum Performance", CheckStatus::Optimal, ""));
    results.add_check(static_check("Power Throttling", "Enabled", CheckStatus::Info, "Windows 10+ feature to reduce background app power usage."));
    results.add_check(static_check("Processor Power Management", "Maximum Performance", CheckStatus::Optimal, ""));
    results.add_check(static_check("Display Power Saving", "Minimal", CheckStatus::Info, ""));
    results.add_check(static_check("Hard Disk Power Saving", "Disabled", CheckStatus::Optimal, ""));
    results.add_check(static_check("Sleep State (S3 vs S0)", "S3 Traditional Sleep", CheckStatus::Info, ""));
    results.add_check(static_check("Away Mode", "Not Applicable", CheckStatus::Info, ""));
    results.add_check(static_check("Display Brightness", "100%", CheckStatus::Info, ""));
    results.add_check(static_check("Adaptive Brightness", "Disabled", CheckStatus::Info, ""));
    results.add_check(static_check("Video Playback Quality Bias", "Video Quality", CheckStatus::Info, ""));
    results.add_check(static_check("Battery Saver", "Not Applicable", CheckStatus::Info, ""));
    results.add_check(static_check("Power Button Action", "Shut Down", CheckStatus::Info, ""));
    results.add_check(static_check("Sleep Button Action", "Sleep", CheckStatus::Info, ""));
    results.add_check(static_check("Lid Close Action", "Not Applicable", CheckStatus::Info, ""));
    results.add_check(static_check("Wake Timers", "Disabled", CheckStatus::Info, "Prevents system from waking for scheduled tasks."));
    results.add_check(static_check("Power Plan GUID", "Detected", CheckStatus::Info, ""));
    results.add_check(static_check("Active Power Scheme", "High Performance", CheckStatus::Optimal, ""));
    results.add_check(static_check("Power Options", "Configured", CheckStatus::Info, ""));
    results.add_check(static_check("Processor Performance State", "Maximum", CheckStatus::Optimal, ""));
    results.add_check(static_check("Device Power States", "D0 Active", CheckStatus::Optimal, ""));
    results
}

} // verus!
