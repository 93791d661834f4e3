//! Audio category: device mode, task priority, and driver state.

use crate::checks::support::{dword_show_check, spec_dword_show_check, spec_static_check, static_check};
use crate::probe::{HKEY_LOCAL_MACHINE, Probe, ProbeModel};
use crate::types::{CategoryResults, CheckModel, CheckStatus};
use vstd::prelude::*;

verus! {

/// The Audio category's checks, in declared order.
pub open spec fn spec_audio_checks(p: ProbeModel) -> Seq<CheckModel> {
    Seq::empty()
        .push(spec_static_check("Exclusive Mode"@, "Allowed"@, CheckStatus::Optimal, "Allows applications to take exclusive control of audio device."@))
        .push(spec_static_check("Audio Enhancements"@, "Disabled"@, CheckStatus::Optimal, "Disable for lowest latency and best quality."@))
        .push(spec_static_check("Default Sample Rate"@, "48000 Hz"@, CheckStatus::Info, "44100 Hz or 48000 Hz are standard."@))
        .push(spec_static_check("Default Bit Depth"@, "24 bit"@, CheckStatus::Info, ""@))
        .push(spec_static_check("Windows Audio Service"@, "Running"@, CheckStatus::Optimal, ""@))
        .push(spec_static_check("Audio Endpoint Builder"@, "Running"@, CheckStatus::Optimal, ""@))
        .push(spec_static_check("Audio Buffer Size"@, "System Default"@, CheckStatus::Info, "Lower buffer = lower latency but more CPU usage."@))
        .push(spec_static_check("Audio DPC Latency"@, "Acceptable"@, CheckStatus::Optimal, ""@))
        .push(spec_dword_show_check(p, HKEY_LOCAL_MACHINE, r"SOFTWARE\Microsoft\Windows NT\CurrentVersion\Multimedia\SystemProfile\Tasks\Audio"@, "Priority"@, 2u32, ""@, "Audio Task Priority"@, CheckStatus::Info, ""@))
        .push(spec_static_check("Audio Offloading"@, "Disabled"@, CheckStatus::Info, "Can cause compatibility issues. Disable if problems occur."@))
        .push(spec_static_check("Spatial Sound"@, "Off"@, CheckStatus::Info, "Windows Sonic or Dolby Atmos can be enabled."@))
        .push(spec_static_check("Communications Auto-Ducking"@, "Do Nothing"@, CheckStatus::Optimal, "Prevents Windows from lowering volume during calls."@))
        .push(spec_static_check("Allow Applications Exclusive Control"@, "Enabled"@, CheckStatus::Optimal, ""@))
        .push(spec_static_check("Audio Device Isolation"@, "Running"@, CheckStatus::Info, ""@))
        .push(spec_static_check("Audio Stream Priority"@, "Configured"@, CheckStatus::Info, ""@))
        .push(spec_static_check("WASAPI Exclusive Mode"@, "Available"@, CheckStatus::Optimal, "Low-latency audio API."@))
        .push(spec_static_check("ASIO Support"@, "Available"@, CheckStatus::Info, "Professional audio driver interface."@))
        .push(spec_static_check("Audio Latency Mode"@, "Low Latency"@, CheckStatus::Optimal, ""@))
        .push(spec_static_check("Audio Driver"@, "Up to Date"@, CheckStatus::Optimal, ""@))
        .push(spec_static_check("Audio Device Power Management"@, "Disabled"@, CheckStatus::Optimal, ""@))
        .push(spec_static_check("Audio Channels"@, "Stereo/5.1/7.1"@, CheckStatus::Info, ""@))
        .push(spec_static_check("Audio Format"@, "PCM"@, CheckStatus::Info, ""@))
        .push(spec_static_check("Audio Quality"@, "High"@, CheckStatus::Optimal, ""@))
        .push(spec_static_check("Audio Output Device"@, "Detected"@, CheckStatus::Info, ""@))
        .push(spec_static_check("Audio Input Device"@, "Detected"@, CheckStatus::Info, ""@))
}

/// Evaluates the Audio category.
pub fn run_audio_checks(p: &Probe) -> (r: CategoryResults)
    ensures
        r@.name == "Audio"@,
        r@.checks == spec_audio_checks(p@),
{
    let mut results = CategoryResults::new("Audio");
    results.add_check(static_check("Exclusive Mode", "Allowed", CheckStatus::Optimal, "Allows applications to take exclusive control of audio device."));
    results.add_check(static_check("Audio Enhancements", "Disabled", CheckStatus::Optimal, "Disable for lowest latency and best quality."));
    results.add_check(static_check("Default Sample Rate", "48000 Hz", CheckStatus::Info, "44100 Hz or 48000 Hz are standard."));
    results.add_check(static_check("Default Bit Depth", "24 bit", CheckStatus::Info, ""));
    results.add_check(static_check("Windows Audio Service", "Running", CheckStatus::Optimal, ""));
    results.add_check(static_check("Audio Endpoint Builder", "Running", CheckStatus::Optimal, ""));
    results.add_check(static_check("Audio Buffer Size", "System Default", CheckStatus::Info, "Lower buffer = lower latency but more CPU usage."));
    results.add_check(static_check("Audio DPC Latency", "Acceptable", CheckStatus::Optimal, ""));
    results.add_check(dword_show_check(p, HKEY_LOCAL_MACHINE, r"SOFTWARE\Microsoft\Windows NT\CurrentVersion\Multimedia\SystemProfile\Tasks\Audio", "Priority", 2u32, "", "Audio Task Priority", CheckStatus::Info, ""));
    results.add_check(static_check("Audio Offloading", "Disabled", CheckStatus::Info, "Can cause compatibility issues. Disable if problems occur."));
    results.add_check(static_check("Spatial Sound", "Off", CheckStatus::Info, "Windows Sonic or Dolby Atmos can be enabled."));
    results.add_check(static_check("Communications Auto-Ducking", "Do Nothing", CheckStatus::Optimal, "Prevents Windows from lowering volume during calls."));
    results.add_check(static_check("Allow Applications Exclusive Control", "Enabled", CheckStatus::Optimal, ""));
    results.add_check(static_check("Audio Device Isolation", "Running", CheckStatus::Info, ""));
    results.add_check(static_check("Audio Stream Priority", "Configured", CheckStatus::Info, ""));
    results.add_check(static_check("WASAPI Exclusive Mode", "Available", CheckStatus::Optimal, "Low-latency audio API."));
    results.add_check(static_check("ASIO Support", "Available", CheckStatus::Info, "Professional audio driver interface."));
    results.add_check(static_check("Audio Latency Mode", "Low Latency", CheckStatus::Optimal, ""));
    results.add_check(static_check("Audio Driver", "Up to Date", CheckStatus::Optimal, ""));
    results.add_check(static_check("Audio Device Power Management", "Disabled", CheckStatus::Optimal, ""));
    results.add_check(static_check("Audio Channels", "Stereo/5.1/7.1", CheckStatus::Info, ""));
    results.add_check(static_check("Audio Format", "PCM", CheckStatus::Info, ""));
    results.add_check(static_check("Audio Quality", "High", CheckStatus::Optimal, ""));
    results.add_check(static_check("Audio Output Device", "Detected", CheckStatus::Info, ""));
    results.add_check(static_check("Audio Input Device", "Detected", CheckStatus::Info, ""));
    results
}

} // verus!
