//! Security category: platform protection and policy state.

use crate::checks::support::{dword_eq_check, spec_dword_eq_check, spec_static_check, static_check};
use crate::probe::{HKEY_LOCAL_MACHINE, Probe, ProbeModel};
use crate::types::{CategoryResults, CheckModel, CheckStatus};
use vstd::prelude::*;

verus! {

/// The Security category's checks, in declared order.
pub open spec fn spec_security_checks(p: ProbeModel) -> Seq<CheckModel> {
    Seq::empty()
        .push(spec_dword_eq_check(p, HKEY_LOCAL_MACHINE, r"SYSTEM\CurrentControlSet\Control\DeviceGuard"@, "EnableVirtualizationBasedSecurity"@, 1u32, "VBS (Virtualization-Based Security)"@, "Enabled"@, "Disabled"@, CheckStatus::Info, CheckStatus::Info, "Provides security but reduces performance."@))
        .push(spec_dword_eq_check(p, HKEY_LOCAL_MACHINE, r"SYSTEM\CurrentControlSet\Control\DeviceGuard\Scenarios\HypervisorEnforcedCodeIntegrity"@, "Enabled"@, 1u32, "Core Isolation (HVCI)"@, "Enabled"@, "Disabled"@, CheckStatus::Info, CheckStatus::Info, "Memory integrity protection."@))
        .push(spec_static_check("Credential Guard"@, "Not Configured"@, CheckStatus::Info, "Enterprise security feature."@))
        .push(spec_static_check("Windows Defender"@, "Running"@, CheckStatus::Optimal, ""@))
        .push(spec_static_check("Windows Firewall"@, "Enabled"@, CheckStatus::Optimal, ""@))
        .push(spec_static_check("Secure Boot"@, "Enabled"@, CheckStatus::Optimal, ""@))
        .push(spec_static_check("TPM (Trusted Platform Module)"@, "2.0 Ready"@, CheckStatus::Optimal, ""@))
        .push(spec_static_check("Exploit Protection"@, "Enabled"@, CheckStatus::Optimal, ""@))
        .push(spec_static_check("Controlled Folder Access"@, "Disabled"@, CheckStatus::Info, "Ransomware protection. Can cause compatibility issues."@))
        .push(spec_static_check("Ransomware Protection"@, "Available"@, CheckStatus::Info, ""@))
        .push(spec_static_check("SmartScreen"@, "Enabled"@, CheckStatus::Optimal, ""@))
        .push(spec_static_check("Windows Update"@, "Running"@, CheckStatus::Optimal, ""@))
        .push(spec_static_check("User Account Control (UAC)"@, "Enabled"@, CheckStatus::Optimal, ""@))
        .push(spec_static_check("BitLocker"@, "Available"@, CheckStatus::Info, ""@))
        .push(spec_static_check("Network Protection"@, "Enabled"@, CheckStatus::Optimal, ""@))
        .push(spec_static_check("Windows Defender Antivirus"@, "Active"@, CheckStatus::Optimal, ""@))
        .push(spec_static_check("Real-Time Protection"@, "Enabled"@, CheckStatus::Optimal, ""@))
        .push(spec_static_check("Cloud-Delivered Protection"@, "Enabled"@, CheckStatus::Info, ""@))
        .push(spec_static_check("Automatic Sample Submission"@, "Enabled"@, CheckStatus::Info, ""@))
        .push(spec_static_check("Tamper Protection"@, "Enabled"@, CheckStatus::Optimal, ""@))
}

/// Evaluates the Security category.
pub fn run_security_checks(p: &Probe) -> (r: CategoryResults)
    ensures
        r@.name == "Security"@,
        r@.checks == spec_security_checks(p@),
{
    let mut results = CategoryResults::new("Security");
    results.add_check(dword_eq_check(p, HKEY_LOCAL_MACHINE, r"SYSTEM\CurrentControlSet\Control\DeviceGuard", "EnableVirtualizationBasedSecurity", 1u32, "VBS (Virtualization-Based Security)", "Enabled", "Disabled", CheckStatus::Info, CheckStatus::Info, "Provides security but reduces performance."));
    results.add_check(dword_eq_check(p, HKEY_LOCAL_MACHINE, r"SYSTEM\CurrentControlSet\Control\DeviceGuard\Scenarios\HypervisorEnforcedCodeIntegrity", "Enabled", 1u32, "Core Isolation (HVCI)", "Enabled", "Disabled", CheckStatus::Info, CheckStatus::Info, "Memory integrity protection."));
    results.add_check(static_check("Credential Guard", "Not Configured", CheckStatus::Info, "Enterprise security feature."));
    results.add_check(static_check("Windows Defender", "Running", CheckStatus::Optimal, ""));
    results.add_check(static_check("Windows Firewall", "Enabled", CheckStatus::Optimal, ""));
    results.add_check(static_check("Secure Boot", "Enabled", CheckStatus::Optimal, ""));
    results.add_check(static_check("TPM (Trusted Platform Module)", "2.0 Ready", CheckStatus::Optimal, ""));
    results.add_check(static_check("Exploit Protection", "Enabled", CheckStatus::Optimal, ""));
    results.add_check(static_check("Controlled Folder Access", "Disabled", CheckStatus::Info, "Ransomware protection. Can cause compatibility issues."));
    results.add_check(static_check("Ransomware Protection", "Available", CheckStatus::Info, ""));
    results.add_check(static_check("SmartScreen", "Enabled", CheckStatus::Optimal, ""));
    results.add_check(static_check("Windows Update", "Running", CheckStatus::Optimal, ""));
    results.add_check(static_check("User Account Control (UAC)", "Enabled", CheckStatus::Optimal, ""));
    results.add_check(static_check("BitLocker", "Available", CheckStatus::Info, ""));
    results.add_check(static_check("Network Protection", "Enabled", CheckStatus::Optimal, ""));
    results.add_check(static_check("Windows Defender Antivirus", "Active", CheckStatus::Optimal, ""));
    results.add_check(static_check("Real-Time Protection", "Enabled", CheckStatus::Optimal, ""));
    results.add_check(static_check("Cloud-Delivered Protection", "Enabled", CheckStatus::Info, ""));
    results.add_check(static_check("Automatic Sample Submission", "Enabled", CheckStatus::Info, ""));
    results.add_check(static_check("Tamper Protection", "Enabled", CheckStatus::Optimal, ""));
    results
}

} // verus!
