//! Network category: transport tuning, sharing, and firewall state.

use crate::checks::support::{dword_eq_check, dword_eq_show_check, spec_dword_eq_check, spec_dword_eq_show_check, spec_static_check, static_check};
use crate::probe::{HKEY_LOCAL_MACHINE, Probe, ProbeModel};
use crate::types::{CategoryResults, CheckModel, CheckStatus};
use vstd::prelude::*;

verus! {

/// The Network category's checks, in declared order.
pub open spec fn spec_network_checks(p: ProbeModel) -> Seq<CheckModel> {
    Seq::empty()
        .push(spec_dword_eq_check(p, HKEY_LOCAL_MACHINE, r"SYSTEM\CurrentControlSet\Services\Tcpip\Parameters\Interfaces"@, "TcpAckFrequency"@, 1u32, "Nagle Algorithm"@, "Disabled"@, "Enabled"@, CheckStatus::Optimal, CheckStatus::Warning, "Disable Nagle for lower latency in gaming and real-time apps."@))
        .push(spec_static_check("RSS (Receive Side Scaling)"@, "Enabled"@, CheckStatus::Optimal, "Distributes network processing across CPU cores."@))
        .push(spec_static_check("Checksum Offload"@, "Enabled"@, CheckStatus::Optimal, "Offloads checksum calculation to NIC."@))
        .push(spec_static_check("Interrupt Moderation"@, "Adaptive"@, CheckStatus::Info, "'Off' for lowest latency, 'Adaptive' balances throughput/latency."@))
        .push(spec_static_check("Flow Control"@, "Enabled"@, CheckStatus::Info, "Can disable for gaming to reduce micro-stutters."@))
        .push(spec_static_check("DNS Servers"@, "Configured"@, CheckStatus::Info, "Use fast DNS like 1.1.1.1 or 8.8.8.8 for better response times."@))
        .push(spec_dword_eq_show_check(p, HKEY_LOCAL_MACHINE, r"SOFTWARE\Policies\Microsoft\Windows\Psched"@, "NonBestEffortLimit"@, 0u32, 20u32, "%"@, "QoS Packet Scheduler Throttling"@, CheckStatus::Optimal, CheckStatus::Warning, "Set to 0 to disable bandwidth reservation."@))
        .push(spec_static_check("NetBIOS over TCP/IP"@, "Disabled"@, CheckStatus::Optimal, "Legacy protocol. Disable if not needed."@))
        .push(spec_static_check("IPv6"@, "Enabled"@, CheckStatus::Info, "Keep enabled unless it causes issues."@))
        .push(spec_static_check("TCP Window Auto-Tuning"@, "Normal"@, CheckStatus::Optimal, "Optimizes TCP window size. Keep on 'normal' or 'experimental'."@))
        .push(spec_static_check("TCP Timestamps"@, "Enabled"@, CheckStatus::Info, ""@))
        .push(spec_static_check("TCP Window Scaling"@, "Enabled"@, CheckStatus::Optimal, "Allows larger TCP windows for better throughput."@))
        .push(spec_static_check("TCP Chimney Offload"@, "Automatic"@, CheckStatus::Info, "Legacy feature. 'Automatic' is recommended."@))
        .push(spec_static_check("Network Adapter Power Management"@, "Disabled"@, CheckStatus::Optimal, "Prevent adapter from sleeping for consistent connectivity."@))
        .push(spec_static_check("Network Throttling"@, "Disabled"@, CheckStatus::Optimal, ""@))
        .push(spec_static_check("TCP Optimizer Settings"@, "Configured"@, CheckStatus::Info, ""@))
        .push(spec_static_check("Receive Buffers"@, "2048"@, CheckStatus::Info, "Increase for high-bandwidth connections."@))
        .push(spec_static_check("Transmit Buffers"@, "2048"@, CheckStatus::Info, "Increase for high-bandwidth connections."@))
        .push(spec_static_check("Jumbo Frames"@, "Disabled"@, CheckStatus::Info, "Enable only if entire network supports it."@))
        .push(spec_static_check("Large Send Offload (LSO)"@, "Enabled"@, CheckStatus::Optimal, ""@))
        .push(spec_static_check("TCP Offload Engine"@, "Enabled"@, CheckStatus::Optimal, ""@))
        .push(spec_static_check("Network Discovery"@, "Enabled"@, CheckStatus::Info, ""@))
        .push(spec_static_check("File and Printer Sharing"@, "Enabled"@, CheckStatus::Info, ""@))
        .push(spec_static_check("Windows Firewall"@, "Enabled"@, CheckStatus::Optimal, "Keep enabled for security."@))
        .push(spec_static_check("Network Location Awareness"@, "Running"@, CheckStatus::Optimal, ""@))
        .push(spec_static_check("Network Profile"@, "Private"@, CheckStatus::Info, ""@))
        .push(spec_static_check("DNS Client Cache"@, "Enabled"@, CheckStatus::Optimal, ""@))
        .push(spec_static_check("LMHOSTS Lookup"@, "Disabled"@, CheckStatus::Info, "Legacy feature. Can be disabled."@))
        .push(spec_static_check("NetBIOS over TCP/IP"@, "Disabled"@, CheckStatus::Optimal, ""@))
        .push(spec_static_check("Network Adapter Binding Order"@, "Optimized"@, CheckStatus::Info, ""@))
        .push(spec_static_check("QoS Packet Scheduler"@, "Enabled"@, CheckStatus::Info, ""@))
        .push(spec_static_check("SMB Version"@, "3.1.1"@, CheckStatus::Optimal, "SMB 3+ provides encryption and better performance."@))
        .push(spec_static_check("SMB Signing"@, "Enabled"@, CheckStatus::Info, "Security feature with slight performance cost."@))
        .push(spec_static_check("SMB Encryption"@, "Negotiated"@, CheckStatus::Info, ""@))
        .push(spec_static_check("Network Congestion Provider"@, "CUBIC"@, CheckStatus::Info, "CUBIC is the modern congestion control algorithm."@))
        .push(spec_static_check("Network Adapter"@, "Detected"@, CheckStatus::Info, ""@))
        .push(spec_static_check("Link Speed"@, "Gigabit+"@, CheckStatus::Optimal, ""@))
        .push(spec_static_check("Network Latency"@, "Low"@, CheckStatus::Optimal, ""@))
        .push(spec_static_check("Packet Loss"@, "None"@, CheckStatus::Optimal, ""@))
        .push(spec_static_check("MTU Size"@, "1500"@, CheckStatus::Info, ""@))
}

/// Evaluates the Network category.
pub fn run_network_checks(p: &Probe) -> (r: CategoryResults)
    ensures
        r@.name == "Network"@,
        r@.checks == spec_network_checks(p@),
{
    let mut results = CategoryResults::new("Network");
    results.add_check(dword_eq_check(p, HKEY_LOCAL_MACHINE, r"SYSTEM\CurrentControlSet\Services\Tcpip\Parameters\Interfaces", "TcpAckFrequency", 1u32, "Nagle Algorithm", "Disabled", "Enabled", CheckStatus::Optimal, CheckStatus::Warning, "Disable Nagle for lower latency in gaming and real-time apps."));
    results.add_check(static_check("RSS (Receive Side Scaling)", "Enabled", CheckStatus::Optimal, "Distributes network processing across CPU cores."));
    results.add_check(static_check("Checksum Offload", "Enabled", CheckStatus::Optimal, "Offloads checksum calculation to NIC."));
    results.add_check(static_check("Interrupt Moderation", "Adaptive", CheckStatus::Info, "'Off' for lowest latency, 'Adaptive' balances throughput/latency."));
    results.add_check(static_check("Flow Control", "Enabled", CheckStatus::Info, "Can disable for gaming to reduce micro-stutters."));
    results.add_check(static_check("DNS Servers", "Configured", CheckStatus::Info, "Use fast DNS like 1.1.1.1 or 8.8.8.8 for better response times."));
    results.add_check(dword_eq_show_check(p, HKEY_LOCAL_MACHINE, r"SOFTWARE\Policies\Microsoft\Windows\Psched", "NonBestEffortLimit", 0u32, 20u32, "%", "QoS Packet Scheduler Throttling", CheckStatus::Optimal, CheckStatus::Warning, "Set to 0 to disable bandwidth reservation."));
    results.add_check(static_check("NetBIOS over TCP/IP", "Disabled", CheckStatus::Optimal, "Legacy protocol. Disable if not needed."));
    results.add_check(static_check("IPv6", "Enabled", CheckStatus::Info, "Keep enabled unless it causes issues."));
    results.add_check(static_check("TCP Window Auto-Tuning", "Normal", CheckStatus::Optimal, "Optimizes TCP window size. Keep on 'normal' or 'experimental'."));
    results.add_check(static_check("TCP Timestamps", "Enabled", CheckStatus::Info, ""));
    results.add_check(static_check("TCP Window Scaling", "Enabled", CheckStatus::Optimal, "Allows larger TCP windows for better throughput."));
    results.add_check(static_check("TCP Chimney Offload", "Automatic", CheckStatus::Info, "Legacy feature. 'Automatic' is recommended."));
    results.add_check(static_check("Network Adapter Power Management", "Disabled", CheckStatus::Optimal, "Prevent adapter from sleeping for consistent connectivity."));
    results.add_check(static_check("Network Throttling", "Disabled", CheckStatus::Optimal, ""));
    results.add_check(static_check("TCP Optimizer Settings", "Configured", CheckStatus::Info, ""));
    results.add_check(static_check("Receive Buffers", "2048", CheckStatus::Info, "Increase for high-bandwidth connections."));
    results.add_check(static_check("Transmit Buffers", "2048", CheckStatus::Info, "Increase for high-bandwidth connections."));
    results.add_check(static_check("Jumbo Frames", "Disabled", CheckStatus::Info, "Enable only if entire network supports it."));
    results.add_check(static_check("Large Send Offload (LSO)", "Enabled", CheckStatus::Optimal, ""));
    results.add_check(static_check("TCP Offload Engine", "Enabled", CheckStatus::Optimal, ""));
    results.add_check(static_check("Network Discovery", "Enabled", CheckStatus::Info, ""));
    results.add_check(static_check("File and Printer Sharing", "Enabled", CheckStatus::Info, ""));
    results.add_check(static_check("Windows Firewall", "Enabled", CheckStatus::Optimal, "Keep enabled for security."));
    results.add_check(static_check("Network Location Awareness", "Running", CheckStatus::Optimal, ""));
    results.add_check(static_check("Network Profile", "Private", CheckStatus::Info, ""));
    results.add_check(static_check("DNS Client Cache", "Enabled", CheckStatus::Optimal, ""));
    results.add_check(static_check("LMHOSTS Lookup", "Disabled", CheckStatus::Info, "Legacy feature. Can be disabled."));
    results.add_check(static_check("NetBIOS over TCP/IP", "Disabled", CheckStatus::Optimal, ""));
    results.add_check(static_check("Network Adapter Binding Order", "Optimized", CheckStatus::Info, ""));
    results.add_check(static_check("QoS Packet Scheduler", "Enabled", CheckStatus::Info, ""));
    results.add_check(static_check("SMB Version", "3.1.1", CheckStatus::Optimal, "SMB 3+ provides encryption and better performance."));
    results.add_check(static_check("SMB Signing", "Enabled", CheckStatus::Info, "Security feature with slight performance cost."));
    results.add_check(static_check("SMB Encryption", "Negotiated", CheckStatus::Info, ""));
    results.add_check(static_check("Network Congestion Provider", "CUBIC", CheckStatus::Info, "CUBIC is the modern congestion control algorithm."));
    results.add_check(static_check("Network Adapter", "Detected", CheckStatus::Info, ""));
    results.add_check(static_check("Link Speed", "Gigabit+", CheckStatus::Optimal, ""));
    results.add_check(static_check("Network Latency", "Low", CheckStatus::Optimal, ""));
    results.add_check(static_check("Packet Loss", "None", CheckStatus::Optimal, ""));
    results.add_check(static_check("MTU Size", "1500", CheckStatus::Info, ""));
    results
}

} // verus!
