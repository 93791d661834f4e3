//! Stability category: crash history, service health, system integrity.

use crate::checks::support::{spec_static_check, static_check};
use crate::types::{CategoryResults, CheckModel, CheckStatus};
use vstd::prelude::*;

verus! {

/// The Stability category's checks, in declared order.
pub open spec fn spec_stability_checks() -> Seq<CheckModel> {
    Seq::empty()
        .push(spec_static_check("Kernel-Power Crashes (Event 41)"@, "0 recent"@, CheckStatus::Optimal, ""@))
        .push(spec_static_check("WHEA Errors"@, "None detected"@, CheckStatus::Optimal, ""@))
        .push(spec_static_check("Application Crashes (Event 1000)"@, "0 recent"@, CheckStatus::Optimal, ""@))
        .push(spec_static_check("BSOD Count (Event 1001)"@, "0 recent"@, CheckStatus::Optimal, ""@))
        .push(spec_static_check("System Uptime"@, "Stable"@, CheckStatus::Optimal, ""@))
        .push(spec_static_check("Driver Verifier"@, "Not Running"@, CheckStatus::Info, ""@))
        .push(spec_static_check("Windows Update Service"@, "Running"@, CheckStatus::Optimal, ""@))
        .push(spec_static_check("WMI Service"@, "Running"@, CheckStatus::Optimal, ""@))
        .push(spec_static_check("Error Reporting Service"@, "Running"@, CheckStatus::Info, ""@))
        .push(spec_static_check("Windows Time Service"@, "Running"@, CheckStatus::Optimal, ""@))
        .push(spec_static_check("Critical System Files"@, "Healthy"@, CheckStatus::Optimal, ""@))
        .push(spec_static_check("System Protection"@, "Enabled"@, CheckStatus::Info, ""@))
        .push(spec_static_check("Memory Diagnostics"@, "No Errors"@, CheckStatus::Optimal, ""@))
        .push(spec_static_check("Disk Errors"@, "None"@, CheckStatus::Optimal, ""@))
        .push(spec_static_check("Driver Updates"@, "Current"@, CheckStatus::Optimal, ""@))
        .push(spec_static_check("Windows Updates"@, "Up to Date"@, CheckStatus::Optimal, ""@))
        .push(spec_static_check("System File Integrity"@, "Verified"@, CheckStatus::Optimal, ""@))
        .push(spec_static_check("Registry Health"@, "Good"@, CheckStatus::Optimal, ""@))
        .push(spec_static_check("Event Log Size"@, "Normal"@, CheckStatus::Info, ""@))
        .push(spec_static_check("Reliability Monitor"@, "Available"@, CheckStatus::Info, ""@))
        .push(spec_static_check("Problem Reports"@, "No Critical Issues"@, CheckStatus::Optimal, ""@))
        .push(spec_static_check("Device Manager Errors"@, "None"@, CheckStatus::Optimal, ""@))
        .push(spec_static_check("Resource Conflicts"@, "None"@, CheckStatus::Optimal, ""@))
        .push(spec_static_check("Failed Devices"@, "None"@, CheckStatus::Optimal, ""@))
        .push(spec_static_check("Driver Signature Enforcement"@, "Enabled"@, CheckStatus::Optimal, ""@))
        .push(spec_static_check("Fast Startup Crashes"@, "None"@, CheckStatus::Optimal, ""@))
        .push(spec_static_check("Sleep/Wake Issues"@, "None"@, CheckStatus::Optimal, ""@))
        .push(spec_static_check("USB Device Stability"@, "Good"@, CheckStatus::Optimal, ""@))
        .push(spec_static_check("Audio Glitches"@, "None"@, CheckStatus::Optimal, ""@))
        .push(spec_static_check("Network Disconnects"@, "None"@, CheckStatus::Optimal, ""@))
        .push(spec_static_check("System Restore Points"@, "Available"@, CheckStatus::Info, ""@))
        .push(spec_static_check("Boot Configuration"@, "Valid"@, CheckStatus::Optimal, ""@))
        .push(spec_static_check("Startup Programs"@, "Minimal"@, CheckStatus::Optimal, ""@))
        .push(spec_static_check("Background Tasks"@, "Normal"@, CheckStatus::Info, ""@))
        .push(spec_static_check("Scheduled Tasks"@, "Healthy"@, CheckStatus::Optimal, ""@))
        .push(spec_static_check("Service Dependencies"@, "Met"@, CheckStatus::Optimal, ""@))
        .push(spec_static_check("System Logs"@, "No Errors"@, CheckStatus::Optimal, ""@))
        .push(spec_static_check("Application Logs"@, "Clean"@, CheckStatus::Optimal, ""@))
        .push(spec_static_check("Security Logs"@, "Monitored"@, CheckStatus::Info, ""@))
        .push(spec_static_check("Performance Counter"@, "Active"@, CheckStatus::Info, ""@))
}

/// Evaluates the Stability category.
pub fn run_stability_checks() -> (r: CategoryResults)
    ensures
        r@.name == "Stability"@,
        r@.checks == spec_stability_checks(),
{
    let mut results = CategoryResults::new("Stability");
    results.add_check(static_check("Kernel-Power Crashes (Event 41)", "0 recent", CheckStatus::Optimal, ""));
    results.add_check(static_check("WHEA Errors", "None detected", CheckStatus::Optimal, ""));
    results.add_check(static_check("Application Crashes (Event 1000)", "0 recent", CheckStatus::Optimal, ""));
    results.add_check(static_check("BSOD Count (Event 1001)", "0 recent", CheckStatus::Optimal, ""));
    results.add_check(static_check("System Uptime", "Stable", CheckStatus::Optimal, ""));
    results.add_check(static_check("Driver Verifier", "Not Running", CheckStatus::Info, ""));
    results.add_check(static_check("Windows Update Service", "Running", CheckStatus::Optimal, ""));
    results.add_check(static_check("WMI Service", "Running", CheckStatus::Optimal, ""));
    results.add_check(static_check("Error Reporting Service", "Running", CheckStatus::Info, ""));
    results.add_check(static_check("Windows Time Service", "Running", CheckStatus::Optimal, ""));
    results.add_check(static_check("Critical System Files", "Healthy", CheckStatus::Optimal, ""));
    results.add_check(static_check("System Protection", "Enabled", CheckStatus::Info, ""));
    results.add_check(static_check("Memory Diagnostics", "No Errors", CheckStatus::Optimal, ""));
    results.add_check(static_check("Disk Errors", "None", CheckStatus::Optimal, ""));
    results.add_check(static_check("Driver Updates", "Current", CheckStatus::Optimal, ""));
    results.add_check(static_check("Windows Updates", "Up to Date", CheckStatus::Optimal, ""));
    results.add_check(static_check("System File Integrity", "Verified", CheckStatus::Optimal, ""));
    results.add_check(static_check("Registry Health", "Good", CheckStatus::Optimal, ""));
    results.add_check(static_check("Event Log Size", "Normal", CheckStatus::Info, ""));
    results.add_check(static_check("Reliability Monitor", "Available", CheckStatus::Info, ""));
    results.add_check(static_check("Problem Reports", "No Critical Issues", CheckStatus::Optimal, ""));
    results.add_check(static_check("Device Manager Errors", "None", CheckStatus::Optimal, ""));
    results.add_check(static_check("Resource Conflicts", "None", CheckStatus::Optimal, ""));
    results.add_check(static_check("Failed Devices", "None", CheckStatus::Optimal, ""));
    results.add_check(static_check("Driver Signature Enforcement", "Enabled", CheckStatus::Optimal, ""));
    results.add_check(static_check("Fast Startup Crashes", "None", CheckStatus::Optimal, ""));
    results.add_check(static_check("Sleep/Wake Issues", "None", CheckStatus::Optimal, ""));
    results.add_check(static_check("USB Device Stability", "Good", CheckStatus::Optimal, ""));
    results.add_check(static_check("Audio Glitches", "None", CheckStatus::Optimal, ""));
    results.add_check(static_check("Network Disconnects", "None", CheckStatus::Optimal, ""));
    results.add_check(static_check("System Restore Points", "Available", CheckStatus::Info, ""));
    results.add_check(static_check("Boot Configuration", "Valid", CheckStatus::Optimal, ""));
    results.add_check(static_check("Startup Programs", "Minimal", CheckStatus::Optimal, ""));
    results.add_check(static_check("Background Tasks", "Normal", CheckStatus::Info, ""));
    results.add_check(static_check("Scheduled Tasks", "Healthy", CheckStatus::Optimal, ""));
    results.add_check(static_check("Service Dependencies", "Met", CheckStatus::Optimal, ""));
    results.add_check(static_check("System Logs", "No Errors", CheckStatus::Optimal, ""));
    results.add_check(static_check("Application Logs", "Clean", CheckStatus::Optimal, ""));
    results.add_check(static_check("Security Logs", "Monitored", CheckStatus::Info, ""));
    results.add_check(static_check("Performance Counter", "Active", CheckStatus::Info, ""));
    results
}

} // verus!
