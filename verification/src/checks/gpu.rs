//! GPU category: scheduling, capture overlays, and adapter facts.

use crate::checks::support::{dword_eq_check, dword_flag2_check, dword_presence_check, dword_show_check, spec_dword_eq_check, spec_dword_flag2_check, spec_dword_presence_check, spec_dword_show_check, spec_static_check, static_check};
use crate::probe::get_gpu_info;
use crate::strutil::{dec_str, u64_to_dec};
use crate::types::{described_check_model, Check};
use crate::probe::{HKEY_CURRENT_USER, HKEY_LOCAL_MACHINE, Probe, ProbeModel};
use crate::types::{CategoryResults, CheckModel, CheckStatus};
use vstd::prelude::*;

verus! {

/// The primary display adapter's reported name.
pub open spec fn spec_check_gpu_model(p: ProbeModel) -> CheckModel {
    let value = match p.gpu {
        Some(g) => g.0,
        None => "Unknown"@,
    };
    described_check_model("GPU Model"@, value, CheckStatus::Info, ""@)
}

/// Reports the primary display adapter's name.
pub fn check_gpu_model(p: &Probe) -> (c: Check)
    ensures
        c@ == spec_check_gpu_model(p@),
{
    match get_gpu_info(p) {
        Some(g) => Check::new("GPU Model", g.0.as_str(), CheckStatus::Info).with_description(""),
        None => Check::new("GPU Model", "Unknown", CheckStatus::Info).with_description(""),
    }
}

/// The adapter's dedicated memory, shown in whole mebibytes.
pub open spec fn spec_check_gpu_vram(p: ProbeModel) -> CheckModel {
    let value = match p.gpu {
        Some(g) => dec_str(((g.1 / 1024) / 1024) as nat) + " MB"@,
        None => "Unknown"@,
    };
    described_check_model("GPU VRAM"@, value, CheckStatus::Info, ""@)
}

/// Reports the adapter's dedicated memory.
pub fn check_gpu_vram(p: &Probe) -> (c: Check)
    ensures
        c@ == spec_check_gpu_vram(p@),
{
    match get_gpu_info(p) {
        Some(g) => {
            let mb = g.1 / 1024 / 1024;
            let mut value = u64_to_dec(mb);
            value.append(" MB");
            Check::new("GPU VRAM", value.as_str(), CheckStatus::Info).with_description("")
        },
        None => Check::new("GPU VRAM", "Unknown", CheckStatus::Info).with_description(""),
    }
}

/// The GPU category's checks, in declared order.
pub open spec fn spec_gpu_checks(p: ProbeModel) -> Seq<CheckModel> {
    Seq::empty()
        .push(spec_dword_eq_check(p, HKEY_LOCAL_MACHINE, r"SYSTEM\CurrentControlSet\Control\GraphicsDrivers"@, "HwSchMode"@, 2u32, "HAGS (Hardware Accelerated GPU Scheduling)"@, "Enabled"@, "Disabled"@, CheckStatus::Optimal, CheckStatus::Warning, "HAGS reduces GPU latency on modern GPUs (GTX 1000+, RX 5000+)."@))
        .push(spec_dword_show_check(p, HKEY_LOCAL_MACHINE, r"SYSTEM\CurrentControlSet\Control\GraphicsDrivers"@, "TdrLevel"@, 3u32, ""@, "TDR Level"@, CheckStatus::Info, "Timeout Detection and Recovery. 0=disabled (risky), 3=full recovery."@))
        .push(spec_dword_show_check(p, HKEY_LOCAL_MACHINE, r"SYSTEM\CurrentControlSet\Control\GraphicsDrivers"@, "TdrDelay"@, 2u32, "s"@, "TDR Delay"@, CheckStatus::Info, "GPU timeout threshold. Default is 2 seconds."@))
        .push(spec_dword_eq_check(p, HKEY_CURRENT_USER, r"System\GameConfigStore"@, "GameDVR_Enabled"@, 0u32, "Game DVR"@, "Disabled"@, "Enabled"@, CheckStatus::Optimal, CheckStatus::Warning, "Game DVR can reduce performance. Disable for gaming."@))
        .push(spec_dword_eq_check(p, HKEY_CURRENT_USER, r"SOFTWARE\Microsoft\Windows\CurrentVersion\GameDVR"@, "AppCaptureEnabled"@, 0u32, "Game Bar"@, "Disabled"@, "Enabled"@, CheckStatus::Optimal, CheckStatus::Warning, "Game Bar overlay can impact performance."@))
        .push(spec_dword_eq_check(p, HKEY_LOCAL_MACHINE, r"SOFTWARE\Microsoft\Windows\Dwm"@, "OverlayTestMode"@, 5u32, "MPO (Multi-Plane Overlay)"@, "Disabled"@, "Enabled"@, CheckStatus::Info, CheckStatus::Info, "MPO can cause issues in some games. Test both settings."@))
        .push(spec_static_check("Fullscreen Optimizations"@, "System Default"@, CheckStatus::Info, "Can be disabled per-application for compatibility."@))
        .push(spec_dword_presence_check(p, HKEY_LOCAL_MACHINE, r"SYSTEM\CurrentControlSet\Control\GraphicsDrivers\Scheduler"@, "EnablePreemption"@, "NVIDIA GPU Scheduling"@, "Configured"@, "Default"@, CheckStatus::Info, CheckStatus::Info, ""@))
        .push(spec_static_check("NVIDIA Max Prerendered Frames"@, "Application Controlled"@, CheckStatus::Info, "Lower values (1) reduce latency, higher increase smoothness."@))
        .push(spec_static_check("NVIDIA Low Latency Mode"@, "Driver Default"@, CheckStatus::Info, "Set to 'Ultra' or 'On' in NVIDIA Control Panel for lowest latency."@))
        .push(spec_static_check("NVIDIA Power Management"@, "System Default"@, CheckStatus::Info, "'Prefer Maximum Performance' gives best results for gaming."@))
        .push(spec_static_check("AMD Anti-Lag"@, "Not Detected"@, CheckStatus::Info, "AMD feature to reduce input lag. Enable in Radeon Software."@))
        .push(spec_static_check("AMD Chill"@, "Not Detected"@, CheckStatus::Info, "Power saving feature. Disable for consistent performance."@))
        .push(spec_static_check("Resizable BAR"@, "System Dependent"@, CheckStatus::Info, "ReBAR improves performance. Enable in BIOS if supported."@))
        .push(spec_static_check("GPU Preemption Granularity"@, "DMA Buffer"@, CheckStatus::Info, "Finer preemption = better responsiveness."@))
        .push(spec_dword_flag2_check(p, HKEY_LOCAL_MACHINE, r"SYSTEM\CurrentControlSet\Control\GraphicsDrivers"@, "DisableShaderCache"@, 1u32, 0u32, "Shader Cache"@, "Disabled"@, "Enabled"@, CheckStatus::Optimal, CheckStatus::Warning, "Shader cache improves load times."@))
        .push(spec_static_check("WDDM Version"@, "3.0+"@, CheckStatus::Info, "Windows Display Driver Model version."@))
        .push(spec_static_check("DirectX 12 Ultimate"@, "Supported"@, CheckStatus::Info, "Latest DirectX features support."@))
        .push(spec_static_check("Hardware Ray Tracing"@, "Available"@, CheckStatus::Info, ""@))
        .push(spec_static_check("Variable Rate Shading"@, "Tier 2"@, CheckStatus::Info, ""@))
        .push(spec_static_check("Mesh Shading"@, "Supported"@, CheckStatus::Info, ""@))
        .push(spec_static_check("Sampler Feedback"@, "Supported"@, CheckStatus::Info, ""@))
        .push(spec_static_check("Hardware Acceleration"@, "Enabled"@, CheckStatus::Optimal, ""@))
        .push(spec_static_check("GPU Memory Management"@, "WDDM 3.0"@, CheckStatus::Info, ""@))
        .push(spec_static_check("Compute Preemption"@, "Thread Level"@, CheckStatus::Info, ""@))
        .push(spec_static_check("GPU Scheduling Latency"@, "Optimized"@, CheckStatus::Info, ""@))
        .push(spec_static_check("DirectX Diagnostics"@, "No Issues"@, CheckStatus::Optimal, ""@))
        .push(spec_static_check("DXGI Flip Model"@, "Supported"@, CheckStatus::Info, "Modern presentation model for lower latency."@))
        .push(spec_static_check("PresentMon Compatible"@, "Yes"@, CheckStatus::Info, ""@))
        .push(spec_static_check("GPU Priority API"@, "Supported"@, CheckStatus::Info, ""@))
        .push(spec_static_check("Async Compute"@, "Supported"@, CheckStatus::Info, ""@))
        .push(spec_static_check("Multi-Adapter Support"@, "Available"@, CheckStatus::Info, ""@))
        .push(spec_static_check("VR Ready"@, "System Dependent"@, CheckStatus::Info, ""@))
        .push(spec_static_check("NVIDIA Reflex"@, "SDK Available"@, CheckStatus::Info, "Low latency technology for supported games."@))
        .push(spec_static_check("AMD FSR Support"@, "Available"@, CheckStatus::Info, "FidelityFX Super Resolution upscaling."@))
        .push(spec_check_gpu_model(p))
        .push(spec_check_gpu_vram(p))
        .push(spec_static_check("GPU Driver Version"@, "Detected"@, CheckStatus::Info, ""@))
        .push(spec_static_check("GPU Clock Speed"@, "Normal"@, CheckStatus::Optimal, ""@))
        .push(spec_static_check("GPU Memory Clock"@, "Normal"@, CheckStatus::Optimal, ""@))
        .push(spec_static_check("GPU Fan Speed"@, "Automatic"@, CheckStatus::Info, ""@))
        .push(spec_static_check("GPU Power Limit"@, "Default"@, CheckStatus::Info, ""@))
        .push(spec_static_check("GPU Utilization"@, "Low at Idle"@, CheckStatus::Optimal, ""@))
        .push(spec_static_check("VRAM Usage"@, "Available"@, CheckStatus::Optimal, ""@))
        .push(spec_static_check("GPU Core Count"@, "Detected"@, CheckStatus::Info, ""@))
        .push(spec_static_check("GPU Boost Clock"@, "Active"@, CheckStatus::Optimal, ""@))
        .push(spec_static_check("GPU Memory Bandwidth"@, "Optimal"@, CheckStatus::Optimal, ""@))
        .push(spec_static_check("GPU PCIe Link Speed"@, "x16 Gen4"@, CheckStatus::Optimal, ""@))
        .push(spec_static_check("GPU TDP"@, "Within Limits"@, CheckStatus::Optimal, ""@))
}

/// Evaluates the GPU category.
pub fn run_gpu_checks(p: &Probe) -> (r: CategoryResults)
    ensures
        r@.name == "GPU"@,
        r@.checks == spec_gpu_checks(p@),
{
    let mut results = CategoryResults::new("GPU");
    results.add_check(dword_eq_check(p, HKEY_LOCAL_MACHINE, r"SYSTEM\CurrentControlSet\Control\GraphicsDrivers", "HwSchMode", 2u32, "HAGS (Hardware Accelerated GPU Scheduling)", "Enabled", "Disabled", CheckStatus::Optimal, CheckStatus::Warning, "HAGS reduces GPU latency on modern GPUs (GTX 1000+, RX 5000+)."));
    results.add_check(dword_show_check(p, HKEY_LOCAL_MACHINE, r"SYSTEM\CurrentControlSet\Control\GraphicsDrivers", "TdrLevel", 3u32, "", "TDR Level", CheckStatus::Info, "Timeout Detection and Recovery. 0=disabled (risky), 3=full recovery."));
    results.add_check(dword_show_check(p, HKEY_LOCAL_MACHINE, r"SYSTEM\CurrentControlSet\Control\GraphicsDrivers", "TdrDelay", 2u32, "s", "TDR Delay", CheckStatus::Info, "GPU timeout threshold. Default is 2 seconds."));
    results.add_check(dword_eq_check(p, HKEY_CURRENT_USER, r"System\GameConfigStore", "GameDVR_Enabled", 0u32, "Game DVR", "Disabled", "Enabled", CheckStatus::Optimal, CheckStatus::Warning, "Game DVR can reduce performance. Disable for gaming."));
    results.add_check(dword_eq_check(p, HKEY_CURRENT_USER, r"SOFTWARE\Microsoft\Windows\CurrentVersion\GameDVR", "AppCaptureEnabled", 0u32, "Game Bar", "Disabled", "Enabled", CheckStatus::Optimal, CheckStatus::Warning, "Game Bar overlay can impact performance."));
    results.add_check(dword_eq_check(p, HKEY_LOCAL_MACHINE, r"SOFTWARE\Microsoft\Windows\Dwm", "OverlayTestMode", 5u32, "MPO (Multi-Plane Overlay)", "Disabled", "Enabled", CheckStatus::Info, CheckStatus::Info, "MPO can cause issues in some games. Test both settings."));
    results.add_check(static_check("Fullscreen Optimizations", "System Default", CheckStatus::Info, "Can be disabled per-application for compatibility."));
    results.add_check(dword_presence_check(p, HKEY_LOCAL_MACHINE, r"SYSTEM\CurrentControlSet\Control\GraphicsDrivers\Scheduler", "EnablePreemption", "NVIDIA GPU Scheduling", "Configured", "Default", CheckStatus::Info, CheckStatus::Info, ""));
    results.add_check(static_check("NVIDIA Max Prerendered Frames", "Application Controlled", CheckStatus::Info, "Lower values (1) reduce latency, higher increase smoothness."));
    results.add_check(static_check("NVIDIA Low Latency Mode", "Driver Default", CheckStatus::Info, "Set to 'Ultra' or 'On' in NVIDIA Control Panel for lowest latency."));
    results.add_check(static_check("NVIDIA Power Management", "System Default", CheckStatus::Info, "'Prefer Maximum Performance' gives best results for gaming."));
    results.add_check(static_check("AMD Anti-Lag", "Not Detected", CheckStatus::Info, "AMD feature to reduce input lag. Enable in Radeon Software."));
    results.add_check(static_check("AMD Chill", "Not Detected", CheckStatus::Info, "Power saving feature. Disable for consistent performance."));
    results.add_check(static_check("Resizable BAR", "System Dependent", CheckStatus::Info, "ReBAR improves performance. Enable in BIOS if supported."));
    results.add_check(static_check("GPU Preemption Granularity", "DMA Buffer", CheckStatus::Info, "Finer preemption = better responsiveness."));
    results.add_check(dword_flag2_check(p, HKEY_LOCAL_MACHINE, r"SYSTEM\CurrentControlSet\Control\GraphicsDrivers", "DisableShaderCache", 1u32, 0u32, "Shader Cache", "Disabled", "Enabled", CheckStatus::Optimal, CheckStatus::Warning, "Shader cache improves load times."));
    results.add_check(static_check("WDDM Version", "3.0+", CheckStatus::Info, "Windows Display Driver Model version."));
    results.add_check(static_check("DirectX 12 Ultimate", "Supported", CheckStatus::Info, "Latest DirectX features support."));
    results.add_check(static_check("Hardware Ray Tracing", "Available", CheckStatus::Info, ""));
    results.add_check(static_check("Variable Rate Shading", "Tier 2", CheckStatus::Info, ""));
    results.add_check(static_check("Mesh Shading", "Supported", CheckStatus::Info, ""));
    results.add_check(static_check("Sampler Feedback", "Supported", CheckStatus::Info, ""));
    results.add_check(static_check("Hardware Acceleration", "Enabled", CheckStatus::Optimal, ""));
    results.add_check(static_check("GPU Memory Management", "WDDM 3.0", CheckStatus::Info, ""));
    results.add_check(static_check("Compute Preemption", "Thread Level", CheckStatus::Info, ""));
    results.add_check(static_check("GPU Scheduling Latency", "Optimized", CheckStatus::Info, ""));
    results.add_check(static_check("DirectX Diagnostics", "No Issues", CheckStatus::Optimal, ""));
    results.add_check(static_check("DXGI Flip Model", "Supported", CheckStatus::Info, "Modern presentation model for lower latency."));
    results.add_check(static_check("PresentMon Compatible", "Yes", CheckStatus::Info, ""));
    results.add_check(static_check("GPU Priority API", "Supported", CheckStatus::Info, ""));
    results.add_check(static_check("Async Compute", "Supported", CheckStatus::Info, ""));
    results.add_check(static_check("Multi-Adapter Support", "Available", CheckStatus::Info, ""));
    results.add_check(static_check("VR Ready", "System Dependent", CheckStatus::Info, ""));
    results.add_check(static_check("NVIDIA Reflex", "SDK Available", CheckStatus::Info, "Low latency technology for supported games."));
    results.add_check(static_check("AMD FSR Support", "Available", CheckStatus::Info, "FidelityFX Super Resolution upscaling."));
    results.add_check(check_gpu_model(p));
    results.add_check(check_gpu_vram(p));
    results.add_check(static_check("GPU Driver Version", "Detected", CheckStatus::Info, ""));
    results.add_check(static_check("GPU Clock Speed", "Normal", CheckStatus::Optimal, ""));
    results.add_check(static_check("GPU Memory Clock", "Normal", CheckStatus::Optimal, ""));
    results.add_check(static_check("GPU Fan Speed", "Automatic", CheckStatus::Info, ""));
    results.add_check(static_check("GPU Power Limit", "Default", CheckStatus::Info, ""));
    results.add_check(static_check("GPU Utilization", "Low at Idle", CheckStatus::Optimal, ""));
    results.add_check(static_check("VRAM Usage", "Available", CheckStatus::Optimal, ""));
    results.add_check(static_check("GPU Core Count", "Detected", CheckStatus::Info, ""));
    results.add_check(static_check("GPU Boost Clock", "Active", CheckStatus::Optimal, ""));
    results.add_check(static_check("GPU Memory Bandwidth", "Optimal", CheckStatus::Optimal, ""));
    results.add_check(static_check("GPU PCIe Link Speed", "x16 Gen4", CheckStatus::Optimal, ""));
    results.add_check(static_check("GPU TDP", "Within Limits", CheckStatus::Optimal, ""));
    results
}

} // verus!
