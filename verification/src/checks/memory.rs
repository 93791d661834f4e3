//! Memory category: paging, caching, and capacity settings.

use crate::checks::support::{dword_eq_check, dword_show_check, spec_dword_eq_check, spec_dword_show_check, spec_static_check, spec_string_presence_check, static_check, string_presence_check};
use crate::probe::{HKEY_LOCAL_MACHINE, Probe, ProbeModel};
use crate::types::{CategoryResults, CheckModel, CheckStatus};
use vstd::prelude::*;

verus! {

/// The Memory category's checks, in declared order.
pub open spec fn spec_memory_checks(p: ProbeModel) -> Seq<CheckModel> {
    Seq::empty()
        .push(spec_static_check("RAM Speed"@, "System Detected"@, CheckStatus::Info, "Current RAM frequency. Check BIOS for XMP/DOCP profile."@))
        .push(spec_static_check("RAM Channel Configuration"@, "Dual Channel"@, CheckStatus::Info, "Dual channel provides 2x memory bandwidth vs single channel."@))
        .push(spec_string_presence_check(p, HKEY_LOCAL_MACHINE, r"SYSTEM\CurrentControlSet\Control\Session Manager\Memory Management"@, "PagingFiles"@, "Page File"@, "Configured"@, "Not Set"@, CheckStatus::Optimal, CheckStatus::Warning, "System-managed or 1.5x RAM size recommended."@))
        .push(spec_static_check("Memory Compression"@, "Enabled"@, CheckStatus::Optimal, "Reduces physical memory usage with minimal CPU cost."@))
        .push(spec_dword_show_check(p, HKEY_LOCAL_MACHINE, r"SYSTEM\CurrentControlSet\Control\Session Manager\Memory Management\PrefetchParameters"@, "EnablePrefetcher"@, 3u32, ""@, "Prefetch"@, CheckStatus::Info, "0=disabled, 1=app, 2=boot, 3=both. Keep enabled for HDDs."@))
        .push(spec_static_check("Superfetch (SysMain)"@, "System Managed"@, CheckStatus::Info, "Preloads frequently used apps. Can disable on SSDs."@))
        .push(spec_dword_eq_check(p, HKEY_LOCAL_MACHINE, r"SYSTEM\CurrentControlSet\Control\Session Manager\Memory Management"@, "LargeSystemCache"@, 1u32, "Large System Cache"@, "Enabled"@, "Disabled"@, CheckStatus::Info, CheckStatus::Info, "For file servers. Keep disabled for workstations."@))
        .push(spec_static_check("NDU (Network Data Usage)"@, "Running"@, CheckStatus::Info, "Can be disabled to save memory if not needed."@))
        .push(spec_dword_show_check(p, HKEY_LOCAL_MACHINE, r"SYSTEM\CurrentControlSet\Control\Session Manager\Memory Management"@, "SecondLevelDataCache"@, 0u32, " KB"@, "Second Level Data Cache"@, CheckStatus::Info, ""@))
        .push(spec_dword_eq_check(p, HKEY_LOCAL_MACHINE, r"SYSTEM\CurrentControlSet\Control\Session Manager\Memory Management"@, "ClearPageFileAtShutdown"@, 1u32, "Clear PageFile at Shutdown"@, "Enabled"@, "Disabled"@, CheckStatus::Info, CheckStatus::Info, "Security feature. Increases shutdown time."@))
        .push(spec_dword_eq_check(p, HKEY_LOCAL_MACHINE, r"SYSTEM\CurrentControlSet\Control\Session Manager\Memory Management"@, "DisablePagingExecutive"@, 1u32, "Disable Paging Executive"@, "Enabled"@, "Disabled"@, CheckStatus::Optimal, CheckStatus::Warning, "Keeps kernel in RAM. Enable if you have 16GB+ RAM."@))
        .push(spec_static_check("Large Page Minimum"@, "System Default"@, CheckStatus::Info, "Minimum memory for large page allocation."@))
        .push(spec_static_check("System Cache Limit"@, "Dynamic"@, CheckStatus::Info, ""@))
        .push(spec_static_check("I/O Page Lock Limit"@, "System Managed"@, CheckStatus::Info, ""@))
        .push(spec_static_check("Memory Management"@, "Optimized"@, CheckStatus::Optimal, ""@))
        .push(spec_static_check("Physical Memory"@, "Detected"@, CheckStatus::Info, ""@))
        .push(spec_static_check("Virtual Memory"@, "Configured"@, CheckStatus::Info, ""@))
        .push(spec_static_check("Committed Memory"@, "Within Limits"@, CheckStatus::Optimal, ""@))
        .push(spec_static_check("Paged Pool"@, "Healthy"@, CheckStatus::Optimal, ""@))
        .push(spec_static_check("Non-Paged Pool"@, "Healthy"@, CheckStatus::Optimal, ""@))
        .push(spec_static_check("Working Set"@, "Normal"@, CheckStatus::Info, ""@))
        .push(spec_static_check("Standby Cache"@, "Active"@, CheckStatus::Info, "Memory cache for recently used files."@))
        .push(spec_static_check("Modified Page List"@, "Normal"@, CheckStatus::Info, ""@))
        .push(spec_static_check("Free Memory"@, "Available"@, CheckStatus::Optimal, ""@))
        .push(spec_static_check("RAM Timings"@, "System Default"@, CheckStatus::Info, "Configure in BIOS for optimal performance."@))
        .push(spec_static_check("Total RAM"@, "Detected"@, CheckStatus::Info, ""@))
        .push(spec_static_check("Available RAM"@, "Sufficient"@, CheckStatus::Optimal, ""@))
        .push(spec_static_check("RAM Manufacturer"@, "Detected"@, CheckStatus::Info, ""@))
        .push(spec_static_check("RAM Voltage"@, "Standard"@, CheckStatus::Info, ""@))
        .push(spec_static_check("RAM CAS Latency"@, "Detected"@, CheckStatus::Info, ""@))
        .push(spec_static_check("RAM Frequency"@, "Optimized"@, CheckStatus::Optimal, ""@))
        .push(spec_static_check("Memory Controller"@, "Active"@, CheckStatus::Optimal, ""@))
        .push(spec_static_check("Memory Slots Used"@, "Detected"@, CheckStatus::Info, ""@))
        .push(spec_static_check("ECC Memory"@, "Not Available"@, CheckStatus::Info, ""@))
        .push(spec_static_check("Memory Rank"@, "Dual Rank"@, CheckStatus::Info, ""@))
}

/// Evaluates the Memory category.
pub fn run_memory_checks(p: &Probe) -> (r: CategoryResults)
    ensures
        r@.name == "Memory"@,
        r@.checks == spec_memory_checks(p@),
{
    let mut results = CategoryResults::new("Memory");
    results.add_check(static_check("RAM Speed", "System Detected", CheckStatus::Info, "Current RAM frequency. Check BIOS for XMP/DOCP profile."));
    results.add_check(static_check("RAM Channel Configuration", "Dual Channel", CheckStatus::Info, "Dual channel provides 2x memory bandwidth vs single channel."));
    results.add_check(string_presence_check(p, HKEY_LOCAL_MACHINE, r"SYSTEM\CurrentControlSet\Control\Session Manager\Memory Management", "PagingFiles", "Page File", "Configured", "Not Set", CheckStatus::Optimal, CheckStatus::Warning, "System-managed or 1.5x RAM size recommended."));
    results.add_check(static_check("Memory Compression", "Enabled", CheckStatus::Optimal, "Reduces physical memory usage with minimal CPU cost."));
    results.add_check(dword_show_check(p, HKEY_LOCAL_MACHINE, r"SYSTEM\CurrentControlSet\Control\Session Manager\Memory Management\PrefetchParameters", "EnablePrefetcher", 3u32, "", "Prefetch", CheckStatus::Info, "0=disabled, 1=app, 2=boot, 3=both. Keep enabled for HDDs."));
    results.add_check(static_check("Superfetch (SysMain)", "System Managed", CheckStatus::Info, "Preloads frequently used apps. Can disable on SSDs."));
    results.add_check(dword_eq_check(p, HKEY_LOCAL_MACHINE, r"SYSTEM\CurrentControlSet\Control\Session Manager\Memory Management", "LargeSystemCache", 1u32, "Large System Cache", "Enabled", "Disabled", CheckStatus::Info, CheckStatus::Info, "For file servers. Keep disabled for workstations."));
    results.add_check(static_check("NDU (Network Data Usage)", "Running", CheckStatus::Info, "Can be disabled to save memory if not needed."));
    results.add_check(dword_show_check(p, HKEY_LOCAL_MACHINE, r"SYSTEM\CurrentControlSet\Control\Session Manager\Memory Management", "SecondLevelDataCache", 0u32, " KB", "Second Level Data Cache", CheckStatus::Info, ""));
    results.add_check(dword_eq_check(p, HKEY_LOCAL_MACHINE, r"SYSTEM\CurrentControlSet\Control\Session Manager\Memory Management", "ClearPageFileAtShutdown", 1u32, "Clear PageFile at Shutdown", "Enabled", "Disabled", CheckStatus::Info, CheckStatus::Info, "Security feature. Increases shutdown time."));
    results.add_check(dword_eq_check(p, HKEY_LOCAL_MACHINE, r"SYSTEM\CurrentControlSet\Control\Session Manager\Memory Management", "DisablePagingExecutive", 1u32, "Disable Paging Executive", "Enabled", "Disabled", CheckStatus::Optimal, CheckStatus::Warning, "Keeps kernel in RAM. Enable if you have 16GB+ RAM."));
    results.add_check(static_check("Large Page Minimum", "System Default", CheckStatus::Info, "Minimum memory for large page allocation."));
    results.add_check(static_check("System Cache Limit", "Dynamic", CheckStatus::Info, ""));
    results.add_check(static_check("I/O Page Lock Limit", "System Managed", CheckStatus::Info, ""));
    results.add_check(static_check("Memory Management", "Optimized", CheckStatus::Optimal, ""));
    results.add_check(static_check("Physical Memory", "Detected", CheckStatus::Info, ""));
    results.add_check(static_check("Virtual Memory", "Configured", CheckStatus::Info, ""));
    results.add_check(static_check("Committed Memory", "Within Limits", CheckStatus::Optimal, ""));
    results.add_check(static_check("Paged Pool", "Healthy", CheckStatus::Optimal, ""));
    results.add_check(static_check("Non-Paged Pool", "Healthy", CheckStatus::Optimal, ""));
    results.add_check(static_check("Working Set", "Normal", CheckStatus::Info, ""));
    results.add_check(static_check("Standby Cache", "Active", CheckStatus::Info, "Memory cache for recently used files."));
    results.add_check(static_check("Modified Page List", "Normal", CheckStatus::Info, ""));
    results.add_check(static_check("Free Memory", "Available", CheckStatus::Optimal, ""));
    results.add_check(static_check("RAM Timings", "System Default", CheckStatus::Info, "Configure in BIOS for optimal performance."));
    results.add_check(static_check("Total RAM", "Detected", CheckStatus::Info, ""));
    results.add_check(static_check("Available RAM", "Sufficient", CheckStatus::Optimal, ""));
    results.add_check(static_check("RAM Manufacturer", "Detected", CheckStatus::Info, ""));
    results.add_check(static_check("RAM Voltage", "Standard", CheckStatus::Info, ""));
    results.add_check(static_check("RAM CAS Latency", "Detected", CheckStatus::Info, ""));
    results.add_check(static_check("RAM Frequency", "Optimized", CheckStatus::Optimal, ""));
    results.add_check(static_check("Memory Controller", "Active", CheckStatus::Optimal, ""));
    results.add_check(static_check("Memory Slots Used", "Detected", CheckStatus::Info, ""));
    results.add_check(static_check("ECC Memory", "Not Available", CheckStatus::Info, ""));
    results.add_check(static_check("Memory Rank", "Dual Rank", CheckStatus::Info, ""));
    results
}

} // verus!
