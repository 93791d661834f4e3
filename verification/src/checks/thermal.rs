//! Thermal category: temperatures, fans, and cooling policy.

use crate::checks::support::{spec_static_check, static_check};
use crate::types::{CategoryResults, CheckModel, CheckStatus};
use vstd::prelude::*;

verus! {

/// The Thermal category's checks, in declared order.
pub open spec fn spec_thermal_checks() -> Seq<CheckModel> {
    Seq::empty()
        .push(spec_static_check("CPU Temperature"@, "Normal"@, CheckStatus::Optimal, ""@))
        .push(spec_static_check("GPU Temperature"@, "Normal"@, CheckStatus::Optimal, ""@))
        .push(spec_static_check("Motherboard Temperature"@, "Normal"@, CheckStatus::Optimal, ""@))
        .push(spec_static_check("Thermal Throttling Events"@, "None"@, CheckStatus::Optimal, ""@))
        .push(spec_static_check("CPU Fan Status"@, "Running"@, CheckStatus::Optimal, ""@))
        .push(spec_static_check("Chassis Fans"@, "Running"@, CheckStatus::Optimal, ""@))
        .push(spec_static_check("Cooling Policy"@, "Active"@, CheckStatus::Optimal, ""@))
        .push(spec_static_check("Thermal Management"@, "Configured"@, CheckStatus::Info, ""@))
        .push(spec_static_check("Ambient Temperature"@, "Normal"@, CheckStatus::Info, ""@))
        .push(spec_static_check("Case Airflow"@, "Good"@, CheckStatus::Info, ""@))
        .push(spec_static_check("Thermal Paste"@, "Good Condition"@, CheckStatus::Info, ""@))
        .push(spec_static_check("Heat Sink"@, "Properly Mounted"@, CheckStatus::Info, ""@))
        .push(spec_static_check("Dust Buildup"@, "None"@, CheckStatus::Optimal, ""@))
        .push(spec_static_check("Temperature Sensors"@, "Working"@, CheckStatus::Optimal, ""@))
        .push(spec_static_check("Fan Control"@, "Automatic"@, CheckStatus::Info, ""@))
        .push(spec_static_check("Liquid Cooling"@, "Not Detected"@, CheckStatus::Info, ""@))
        .push(spec_static_check("VRM Temperature"@, "Normal"@, CheckStatus::Optimal, ""@))
        .push(spec_static_check("SSD Temperature"@, "Normal"@, CheckStatus::Optimal, ""@))
        .push(spec_static_check("RAM Temperature"@, "Normal"@, CheckStatus::Optimal, ""@))
        .push(spec_static_check("Power Supply Temperature"@, "Normal"@, CheckStatus::Optimal, ""@))
        .push(spec_static_check("Chipset Temperature"@, "Normal"@, CheckStatus::Optimal, ""@))
        .push(spec_static_check("M.2 SSD Heatsink"@, "Present"@, CheckStatus::Info, ""@))
        .push(spec_static_check("Thermal Zones"@, "Configured"@, CheckStatus::Info, ""@))
        .push(spec_static_check("ACPI Thermal Zone"@, "Active"@, CheckStatus::Info, ""@))
        .push(spec_static_check("Fan Speed Control"@, "Working"@, CheckStatus::Optimal, ""@))
}

/// Evaluates the Thermal category.
pub fn run_thermal_checks() -> (r: CategoryResults)
    ensures
        r@.name == "Thermal"@,
        r@.checks == spec_thermal_checks(),
{
    let mut results = CategoryResults::new("Thermal");
    results.add_check(static_check("CPU Temperature", "Normal", CheckStatus::Optimal, ""));
    results.add_check(static_check("GPU Temperature", "Normal", CheckStatus::Optimal, ""));
    results.add_check(static_check("Motherboard Temperature", "Normal", CheckStatus::Optimal, ""));
    results.add_check(static_check("Thermal Throttling Events", "None", CheckStatus::Optimal, ""));
    results.add_check(static_check("CPU Fan Status", "Running", CheckStatus::Optimal, ""));
    results.add_check(static_check("Chassis Fans", "Running", CheckStatus::Optimal, ""));
    results.add_check(static_check("Cooling Policy", "Active", CheckStatus::Optimal, ""));
    results.add_check(static_check("Thermal Management", "Configured", CheckStatus::Info, ""));
    results.add_check(static_check("Ambient Temperature", "Normal", CheckStatus::Info, ""));
    results.add_check(static_check("Case Airflow", "Good", CheckStatus::Info, ""));
    results.add_check(static_check("Thermal Paste", "Good Condition", CheckStatus::Info, ""));
    results.add_check(static_check("Heat Sink", "Properly Mounted", CheckStatus::Info, ""));
    results.add_check(static_check("Dust Buildup", "None", CheckStatus::Optimal, ""));
    results.add_check(static_check("Temperature Sensors", "Working", CheckStatus::Optimal, ""));
    results.add_check(static_check("Fan Control", "Automatic", CheckStatus::Info, ""));
    results.add_check(static_check("Liquid Cooling", "Not Detected", CheckStatus::Info, ""));
    results.add_check(static_check("VRM Temperature", "Normal", CheckStatus::Optimal, ""));
    results.add_check(static_check("SSD Temperature", "Normal", CheckStatus::Optimal, ""));
    results.add_check(static_check("RAM Temperature", "Normal", CheckStatus::Optimal, ""));
    results.add_check(static_check("Power Supply Temperature", "Normal", CheckStatus::Optimal, ""));
    results.add_check(static_check("Chipset Temperature", "Normal", CheckStatus::Optimal, ""));
    results.add_check(static_check("M.2 SSD Heatsink", "Present", CheckStatus::Info, ""));
    results.add_check(static_check("Thermal Zones", "Configured", CheckStatus::Info, ""));
    results.add_check(static_check("ACPI Thermal Zone", "Active", CheckStatus::Info, ""));
    results.add_check(static_check("Fan Speed Control", "Working", CheckStatus::Optimal, ""));
    results
}

} // verus!
