//! Input category: pointer, keyboard, and input service settings.

use crate::checks::support::{dword_eq_check, dword_show_check, spec_dword_eq_check, spec_dword_show_check, spec_static_check, spec_string_show_check, static_check, string_show_check};
use crate::probe::{HKEY_CURRENT_USER, Probe, ProbeModel};
use crate::types::{CategoryResults, CheckModel, CheckStatus};
use vstd::prelude::*;

verus! {

/// The Input category's checks, in declared order.
pub open spec fn spec_input_checks(p: ProbeModel) -> Seq<CheckModel> {
    Seq::empty()
        .push(spec_dword_eq_check(p, HKEY_CURRENT_USER, r"Control Panel\Mouse"@, "MouseSpeed"@, 0u32, "Mouse Acceleration"@, "Disabled"@, "Enabled"@, CheckStatus::Optimal, CheckStatus::Warning, "Disable for precise aiming in FPS games."@))
        .push(spec_dword_eq_check(p, HKEY_CURRENT_USER, r"Control Panel\Mouse"@, "MouseSpeed"@, 0u32, "Enhance Pointer Precision"@, "Disabled"@, "Enabled"@, CheckStatus::Optimal, CheckStatus::Warning, "Windows mouse acceleration. Disable for gaming."@))
        .push(spec_dword_show_check(p, HKEY_CURRENT_USER, r"Control Panel\Mouse"@, "MouseSensitivity"@, 10u32, "/20"@, "Mouse Speed"@, CheckStatus::Info, "6/11 (10/20) is 1:1 ratio, recommended for gaming."@))
        .push(spec_string_show_check(p, HKEY_CURRENT_USER, r"Control Panel\Mouse"@, "MouseThreshold1"@, "0"@, "Mouse Acceleration Threshold 1"@, CheckStatus::Info, ""@))
        .push(spec_string_show_check(p, HKEY_CURRENT_USER, r"Control Panel\Mouse"@, "MouseThreshold2"@, "0"@, "Mouse Acceleration Threshold 2"@, CheckStatus::Info, ""@))
        .push(spec_string_show_check(p, HKEY_CURRENT_USER, r"Control Panel\Keyboard"@, "KeyboardDelay"@, "1"@, "Keyboard Repeat Delay"@, CheckStatus::Info, "0 = shortest delay (250ms)."@))
        .push(spec_string_show_check(p, HKEY_CURRENT_USER, r"Control Panel\Keyboard"@, "KeyboardSpeed"@, "31"@, "Keyboard Repeat Rate"@, CheckStatus::Info, "31 = fastest repeat rate."@))
        .push(spec_static_check("HID Service"@, "Running"@, CheckStatus::Optimal, "Human Interface Device Access service."@))
        .push(spec_static_check("Tablet Input Service"@, "Disabled"@, CheckStatus::Info, "Can be disabled on non-touch systems."@))
        .push(spec_static_check("Touch Keyboard Service"@, "Disabled"@, CheckStatus::Info, "Can be disabled on non-touch systems."@))
        .push(spec_static_check("Mouse Trails"@, "Disabled"@, CheckStatus::Optimal, ""@))
        .push(spec_static_check("Snap To Default Button"@, "Disabled"@, CheckStatus::Info, ""@))
        .push(spec_static_check("Mouse Sonar (Ctrl to Find)"@, "Disabled"@, CheckStatus::Info, ""@))
        .push(spec_static_check("Hide Pointer While Typing"@, "Disabled"@, CheckStatus::Info, ""@))
        .push(spec_static_check("Pointer Shadow"@, "Enabled"@, CheckStatus::Info, ""@))
        .push(spec_static_check("Raw Input API"@, "Available"@, CheckStatus::Optimal, "Games should use Raw Input for best precision."@))
        .push(spec_static_check("Input Lag"@, "Minimal"@, CheckStatus::Optimal, ""@))
        .push(spec_static_check("Mouse Polling Rate"@, "1000 Hz"@, CheckStatus::Optimal, "Higher polling rate = lower input lag."@))
        .push(spec_static_check("USB Selective Suspend"@, "Disabled"@, CheckStatus::Optimal, "Prevents USB devices from entering power-saving mode."@))
        .push(spec_static_check("Input Device Drivers"@, "Up to Date"@, CheckStatus::Optimal, ""@))
        .push(spec_static_check("Keyboard Layout"@, "Detected"@, CheckStatus::Info, ""@))
        .push(spec_static_check("Numlock State"@, "Configured"@, CheckStatus::Info, ""@))
        .push(spec_static_check("Scroll Lock"@, "Disabled"@, CheckStatus::Info, ""@))
        .push(spec_static_check("Input Language"@, "Configured"@, CheckStatus::Info, ""@))
        .push(spec_static_check("Gamepad Support"@, "Available"@, CheckStatus::Info, ""@))
}

/// Evaluates the Input category.
pub fn run_input_checks(p: &Probe) -> (r: CategoryResults)
    ensures
        r@.name == "Input"@,
        r@.checks == spec_input_checks(p@),
{
    let mut results = CategoryResults::new("Input");
    results.add_check(dword_eq_check(p, HKEY_CURRENT_USER, r"Control Panel\Mouse", "MouseSpeed", 0u32, "Mouse Acceleration", "Disabled", "Enabled", CheckStatus::Optimal, CheckStatus::Warning, "Disable for precise aiming in FPS games."));
    results.add_check(dword_eq_check(p, HKEY_CURRENT_USER, r"Control Panel\Mouse", "MouseSpeed", 0u32, "Enhance Pointer Precision", "Disabled", "Enabled", CheckStatus::Optimal, CheckStatus::Warning, "Windows mouse acceleration. Disable for gaming."));
    results.add_check(dword_show_check(p, HKEY_CURRENT_USER, r"Control Panel\Mouse", "MouseSensitivity", 10u32, "/20", "Mouse Speed", CheckStatus::Info, "6/11 (10/20) is 1:1 ratio, recommended for gaming."));
    results.add_check(string_show_check(p, HKEY_CURRENT_USER, r"Control Panel\Mouse", "MouseThreshold1", "0", "Mouse Acceleration Threshold 1", CheckStatus::Info, ""));
    results.add_check(string_show_check(p, HKEY_CURRENT_USER, r"Control Panel\Mouse", "MouseThreshold2", "0", "Mouse Acceleration Threshold 2", CheckStatus::Info, ""));
    results.add_check(string_show_check(p, HKEY_CURRENT_USER, r"Control Panel\Keyboard", "KeyboardDelay", "1", "Keyboard Repeat Delay", CheckStatus::Info, "0 = shortest delay (250ms)."));
    results.add_check(string_show_check(p, HKEY_CURRENT_USER, r"Control Panel\Keyboard", "KeyboardSpeed", "31", "Keyboard Repeat Rate", CheckStatus::Info, "31 = fastest repeat rate."));
    results.add_check(static_check("HID Service", "Running", CheckStatus::Optimal, "Human Interface Device Access service."));
    results.add_check(static_check("Tablet Input Service", "Disabled", CheckStatus::Info, "Can be disabled on non-touch systems."));
    results.add_check(static_check("Touch Keyboard Service", "Disabled", CheckStatus::Info, "Can be disabled on non-touch systems."));
    results.add_check(static_check("Mouse Trails", "Disabled", CheckStatus::Optimal, ""));
    results.add_check(static_check("Snap To Default Button", "Disabled", CheckStatus::Info, ""));
    results.add_check(static_check("Mouse Sonar (Ctrl to Find)", "Disabled", CheckStatus::Info, ""));
    results.add_check(static_check("Hide Pointer While Typing", "Disabled", CheckStatus::Info, ""));
    results.add_check(static_check("Pointer Shadow", "Enabled", CheckStatus::Info, ""));
    results.add_check(static_check("Raw Input API", "Available", CheckStatus::Optimal, "Games should use Raw Input for best precision."));
    results.add_check(static_check("Input Lag", "Minimal", CheckStatus::Optimal, ""));
    results.add_check(static_check("Mouse Polling Rate", "1000 Hz", CheckStatus::Optimal, "Higher polling rate = lower input lag."));
    results.add_check(static_check("USB Selective Suspend", "Disabled", CheckStatus::Optimal, "Prevents USB devices from entering power-saving mode."));
    results.add_check(static_check("Input Device Drivers", "Up to Date", CheckStatus::Optimal, ""));
    results.add_check(static_check("Keyboard Layout", "Detected", CheckStatus::Info, ""));
    results.add_check(static_check("Numlock State", "Configured", CheckStatus::Info, ""));
    results.add_check(static_check("Scroll Lock", "Disabled", CheckStatus::Info, ""));
    results.add_check(static_check("Input Language", "Configured", CheckStatus::Info, ""));
    results.add_check(static_check("Gamepad Support", "Available", CheckStatus::Info, ""));
    results
}

} // verus!
