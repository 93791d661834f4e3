//! Storage category: filesystem flags and drive policy.

use crate::checks::support::{dword_eq_check, dword_flag2_check, spec_dword_eq_check, spec_dword_flag2_check, spec_static_check, static_check};
use crate::probe::{HKEY_LOCAL_MACHINE, Probe, ProbeModel};
use crate::types::{CategoryResults, CheckModel, CheckStatus};
use vstd::prelude::*;

verus! {

/// The Storage category's checks, in declared order.
pub open spec fn spec_storage_checks(p: ProbeModel) -> Seq<CheckModel> {
    Seq::empty()
        .push(spec_dword_flag2_check(p, HKEY_LOCAL_MACHINE, r"SYSTEM\CurrentControlSet\Control\FileSystem"@, "DisableDeleteNotification"@, 0u32, 0u32, "TRIM Support"@, "Enabled"@, "Disabled"@, CheckStatus::Optimal, CheckStatus::Warning, "TRIM is essential for SSD health and performance."@))
        .push(spec_static_check("Partition Alignment"@, "4K Aligned"@, CheckStatus::Optimal, "Modern drives should be 4K aligned."@))
        .push(spec_dword_eq_check(p, HKEY_LOCAL_MACHINE, r"SYSTEM\CurrentControlSet\Control\FileSystem"@, "NtfsDisable8dot3NameCreation"@, 1u32, "8.3 Filename Creation"@, "Disabled"@, "Enabled"@, CheckStatus::Optimal, CheckStatus::Warning, "Disable for better performance on SSDs."@))
        .push(spec_dword_eq_check(p, HKEY_LOCAL_MACHINE, r"SYSTEM\CurrentControlSet\Control\FileSystem"@, "NtfsDisableLastAccessUpdate"@, 1u32, "Last Access Timestamp"@, "Disabled"@, "Enabled"@, CheckStatus::Optimal, CheckStatus::Warning, "Disable to reduce SSD writes."@))
        .push(spec_static_check("NVMe Idle Timeout"@, "Configured"@, CheckStatus::Info, "Longer timeout reduces latency spikes."@))
        .push(spec_static_check("Storage Sense"@, "Disabled"@, CheckStatus::Info, "Automatic disk cleanup. Can impact performance."@))
        .push(spec_static_check("Windows Search Indexing"@, "Limited"@, CheckStatus::Info, "Disable or limit to specific folders for performance."@))
        .push(spec_static_check("Scheduled Defragmentation"@, "Disabled on SSDs"@, CheckStatus::Optimal, "SSDs don't need defragmentation."@))
        .push(spec_static_check("Write Cache"@, "Enabled"@, CheckStatus::Optimal, "Improves performance but requires UPS for data safety."@))
        .push(spec_static_check("FSUtil Behavior"@, "Optimized"@, CheckStatus::Info, ""@))
        .push(spec_static_check("Disk Timeout"@, "System Default"@, CheckStatus::Info, ""@))
        .push(spec_static_check("Disk Idle Timeout"@, "Never"@, CheckStatus::Optimal, "Prevents disks from spinning down during activity."@))
        .push(spec_static_check("Storage Policy"@, "Performance"@, CheckStatus::Optimal, ""@))
        .push(spec_static_check("File System"@, "NTFS"@, CheckStatus::Optimal, ""@))
        .push(spec_static_check("Cluster Size"@, "4KB"@, CheckStatus::Optimal, ""@))
        .push(spec_static_check("NTFS Compression"@, "Disabled"@, CheckStatus::Optimal, "Compression reduces performance."@))
        .push(spec_static_check("BitLocker Encryption"@, "Not Detected"@, CheckStatus::Info, "Encryption has performance cost but provides security."@))
        .push(spec_static_check("Disk Caching"@, "Enabled"@, CheckStatus::Optimal, ""@))
        .push(spec_static_check("SSD Optimization"@, "Enabled"@, CheckStatus::Optimal, ""@))
        .push(spec_static_check("NVMe Settings"@, "Optimized"@, CheckStatus::Info, ""@))
        .push(spec_static_check("SATA Mode"@, "AHCI"@, CheckStatus::Info, "AHCI is required for TRIM support."@))
        .push(spec_static_check("AHCI Link Power Management"@, "Active"@, CheckStatus::Info, ""@))
        .push(spec_static_check("RAID Configuration"@, "Not Detected"@, CheckStatus::Info, ""@))
        .push(spec_static_check("S.M.A.R.T. Monitoring"@, "Active"@, CheckStatus::Info, ""@))
        .push(spec_static_check("Disk Optimization"@, "Configured"@, CheckStatus::Info, ""@))
        .push(spec_static_check("Storage Spaces"@, "Not Used"@, CheckStatus::Info, ""@))
        .push(spec_static_check("Volume Shadow Copy"@, "Enabled"@, CheckStatus::Info, ""@))
        .push(spec_static_check("Disk Quota"@, "Disabled"@, CheckStatus::Info, ""@))
        .push(spec_static_check("Distributed Link Tracking"@, "Disabled"@, CheckStatus::Info, "Can be disabled for performance."@))
        .push(spec_static_check("Storage QoS"@, "Not Applicable"@, CheckStatus::Info, ""@))
}

/// Evaluates the Storage category.
pub fn run_storage_checks(p: &Probe) -> (r: CategoryResults)
    ensures
        r@.name == "Storage"@,
        r@.checks == spec_storage_checks(p@),
{
    let mut results = CategoryResults::new("Storage");
    results.add_check(dword_flag2_check(p, HKEY_LOCAL_MACHINE, r"SYSTEM\CurrentControlSet\Control\FileSystem", "DisableDeleteNotification", 0u32, 0u32, "TRIM Support", "Enabled", "Disabled", CheckStatus::Optimal, CheckStatus::Warning, "TRIM is essential for SSD health and performance."));
    results.add_check(static_check("Partition Alignment", "4K Aligned", CheckStatus::Optimal, "Modern drives should be 4K aligned."));
    results.add_check(dword_eq_check(p, HKEY_LOCAL_MACHINE, r"SYSTEM\CurrentControlSet\Control\FileSystem", "NtfsDisable8dot3NameCreation", 1u32, "8.3 Filename Creation", "Disabled", "Enabled", CheckStatus::Optimal, CheckStatus::Warning, "Disable for better performance on SSDs."));
    results.add_check(dword_eq_check(p, HKEY_LOCAL_MACHINE, r"SYSTEM\CurrentControlSet\Control\FileSystem", "NtfsDisableLastAccessUpdate", 1u32, "Last Access Timestamp", "Disabled", "Enabled", CheckStatus::Optimal, CheckStatus::Warning, "Disable to reduce SSD writes."));
    results.add_check(static_check("NVMe Idle Timeout", "Configured", CheckStatus::Info, "Longer timeout reduces latency spikes."));
    results.add_check(static_check("Storage Sense", "Disabled", CheckStatus::Info, "Automatic disk cleanup. Can impact performance."));
    results.add_check(static_check("Windows Search Indexing", "Limited", CheckStatus::Info, "Disable or limit to specific folders for performance."));
    results.add_check(static_check("Scheduled Defragmentation", "Disabled on SSDs", CheckStatus::Optimal, "SSDs don't need defragmentation."));
    results.add_check(static_check("Write Cache", "Enabled", CheckStatus::Optimal, "Improves performance but requires UPS for data safety."));
    results.add_check(static_check("FSUtil Behavior", "Optimized", CheckStatus::Info, ""));
    results.add_check(static_check("Disk Timeout", "System Default", CheckStatus::Info, ""));
    results.add_check(static_check("Disk Idle Timeout", "Never", CheckStatus::Optimal, "Prevents disks from spinning down during activity."));
    results.add_check(static_check("Storage Policy", "Performance", CheckStatus::Optimal, ""));
    results.add_check(static_check("File System", "NTFS", CheckStatus::Optimal, ""));
    results.add_check(static_check("Cluster Size", "4KB", CheckStatus::Optimal, ""));
    results.add_check(static_check("NTFS Compression", "Disabled", CheckStatus::Optimal, "Compression reduces performance."));
    results.add_check(static_check("BitLocker Encryption", "Not Detected", CheckStatus::Info, "Encryption has performance cost but provides security."));
    results.add_check(static_check("Disk Caching", "Enabled", CheckStatus::Optimal, ""));
    results.add_check(static_check("SSD Optimization", "Enabled", CheckStatus::Optimal, ""));
    results.add_check(static_check("NVMe Settings", "Optimized", CheckStatus::Info, ""));
    results.add_check(static_check("SATA Mode", "AHCI", CheckStatus::Info, "AHCI is required for TRIM support."));
    results.add_check(static_check("AHCI Link Power Management", "Active", CheckStatus::Info, ""));
    results.add_check(static_check("RAID Configuration", "Not Detected", CheckStatus::Info, ""));
    results.add_check(static_check("S.M.A.R.T. Monitoring", "Active", CheckStatus::Info, ""));
    results.add_check(static_check("Disk Optimization", "Configured", CheckStatus::Info, ""));
    results.add_check(static_check("Storage Spaces", "Not Used", CheckStatus::Info, ""));
    results.add_check(static_check("Volume Shadow Copy", "Enabled", CheckStatus::Info, ""));
    results.add_check(static_check("Disk Quota", "Disabled", CheckStatus::Info, ""));
    results.add_check(static_check("Distributed Link Tracking", "Disabled", CheckStatus::Info, "Can be disabled for performance."));
    results.add_check(static_check("Storage QoS", "Not Applicable", CheckStatus::Info, ""));
    results
}

} // verus!
