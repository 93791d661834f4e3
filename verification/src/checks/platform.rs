//! Platform category: operating-system identity, firmware mode, and
//! machine make and model.

use crate::checks::support::{spec_wmi_string_show_check, wmi_string_show_check};
use crate::probe::{path_exists, path_exists_spec, Probe, ProbeModel};
use crate::checks::support::{spec_string_show_check, string_show_check};
use crate::probe::HKEY_LOCAL_MACHINE;
use crate::types::{described_check_model, CategoryResults, Check, CheckModel, CheckStatus};
use vstd::prelude::*;

verus! {

/// The reported operating-system name.
pub open spec fn spec_check_windows_version(p: ProbeModel) -> CheckModel {
    spec_wmi_string_show_check(
        p,
        "Win32_OperatingSystem"@,
        "Caption"@,
        "Windows Version"@,
        CheckStatus::Info,
    )
}

/// Reports the operating-system name.
pub fn check_windows_version(p: &Probe) -> (c: Check)
    ensures
        c@ == spec_check_windows_version(p@),
{
    wmi_string_show_check(p, "Win32_OperatingSystem", "Caption", "Windows Version",
        CheckStatus::Info)
}

/// The reported build number.
pub open spec fn spec_check_windows_build(p: ProbeModel) -> CheckModel {
    spec_wmi_string_show_check(
        p,
        "Win32_OperatingSystem"@,
        "BuildNumber"@,
        "Windows Build"@,
        CheckStatus::Info,
    )
}

/// Reports the build number.
pub fn check_windows_build(p: &Probe) -> (c: Check)
    ensures
        c@ == spec_check_windows_build(p@),
{
    wmi_string_show_check(p, "Win32_OperatingSystem", "BuildNumber", "Windows Build",
        CheckStatus::Info)
}

/// The installed edition, read from the version key.
pub open spec fn spec_check_windows_edition(p: ProbeModel) -> CheckModel {
    spec_string_show_check(
        p,
        HKEY_LOCAL_MACHINE,
        r"SOFTWARE\Microsoft\Windows NT\CurrentVersion"@,
        "EditionID"@,
        "Unknown"@,
        "Windows Edition"@,
        CheckStatus::Info,
        ""@,
    )
}

/// Reports the installed edition.
pub fn check_windows_edition(p: &Probe) -> (c: Check)
    ensures
        c@ == spec_check_windows_edition(p@),
{
    string_show_check(
        p,
        HKEY_LOCAL_MACHINE,
        r"SOFTWARE\Microsoft\Windows NT\CurrentVersion",
        "EditionID",
        "Unknown",
        "Windows Edition",
        CheckStatus::Info,
        "",
    )
}

/// The reported architecture of the running system.
pub open spec fn spec_check_system_type(p: ProbeModel) -> CheckModel {
    spec_wmi_string_show_check(
        p,
        "Win32_OperatingSystem"@,
        "OSArchitecture"@,
        "System Architecture"@,
        CheckStatus::Info,
    )
}

/// Reports the architecture of the running system.
pub fn check_system_type(p: &Probe) -> (c: Check)
    ensures
        c@ == spec_check_system_type(p@),
{
    wmi_string_show_check(p, "Win32_OperatingSystem", "OSArchitecture", "System Architecture",
        CheckStatus::Info)
}

/// The firmware mode, inferred from the presence of the setup log.
pub open spec fn spec_check_bios_mode(p: ProbeModel) -> CheckModel {
    let present = path_exists_spec(p, r"C:\Windows\Panther\setupact.log"@);
    described_check_model(
        "BIOS Mode"@,
        if present {
            "UEFI/Legacy"@
        } else {
            "Unknown"@
        },
        CheckStatus::Info,
        ""@,
    )
}

/// Reports the firmware mode.
pub fn check_bios_mode(p: &Probe) -> (c: Check)
    ensures
        c@ == spec_check_bios_mode(p@),
{
    if path_exists(p, r"C:\Windows\Panther\setupact.log") {
        Check::new("BIOS Mode", "UEFI/Legacy", CheckStatus::Info).with_description("")
    } else {
        Check::new("BIOS Mode", "Unknown", CheckStatus::Info).with_description("")
    }
}

/// The machine's reported manufacturer.
pub open spec fn spec_check_manufacturer(p: ProbeModel) -> CheckModel {
    spec_wmi_string_show_check(
        p,
        "Win32_ComputerSystem"@,
        "Manufacturer"@,
        "System Manufacturer"@,
        CheckStatus::Info,
    )
}

/// Reports the machine's manufacturer.
pub fn check_manufacturer(p: &Probe) -> (c: Check)
    ensures
        c@ == spec_check_manufacturer(p@),
{
    wmi_string_show_check(p, "Win32_ComputerSystem", "Manufacturer", "System Manufacturer",
        CheckStatus::Info)
}

/// The machine's reported model.
pub open spec fn spec_check_model(p: ProbeModel) -> CheckModel {
    spec_wmi_string_show_check(
        p,
        "Win32_ComputerSystem"@,
        "Model"@,
        "System Model"@,
        CheckStatus::Info,
    )
}

/// Reports the machine's model.
pub fn check_model(p: &Probe) -> (c: Check)
    ensures
        c@ == spec_check_model(p@),
{
    wmi_string_show_check(p, "Win32_ComputerSystem", "Model", "System Model", CheckStatus::Info)
}

/// The last reported boot time.
pub open spec fn spec_check_system_uptime(p: ProbeModel) -> CheckModel {
    spec_wmi_string_show_check(
        p,
        "Win32_OperatingSystem"@,
        "LastBootUpTime"@,
        "Last Boot Time"@,
        CheckStatus::Info,
    )
}

/// Reports the last boot time.
pub fn check_system_uptime(p: &Probe) -> (c: Check)
    ensures
        c@ == spec_check_system_uptime(p@),
{
    wmi_string_show_check(p, "Win32_OperatingSystem", "LastBootUpTime", "Last Boot Time",
        CheckStatus::Info)
}

/// The Platform category's checks, in declared order.
pub open spec fn spec_platform_checks(p: ProbeModel) -> Seq<CheckModel> {
    Seq::empty().push(spec_check_windows_version(p)).push(spec_check_windows_build(p)).push(
        spec_check_windows_edition(p),
    ).push(spec_check_system_type(p)).push(spec_check_bios_mode(p)).push(
        spec_check_manufacturer(p),
    ).push(spec_check_model(p)).push(spec_check_system_uptime(p))
}

/// Evaluates the Platform category.
pub fn run_platform_checks(p: &Probe) -> (r: CategoryResults)
    ensures
        r@.name == "Platform"@,
        r@.checks == spec_platform_checks(p@),
{
    let mut results = CategoryResults::new("Platform");
    results.add_check(check_windows_version(p));
    results.add_check(check_windows_build(p));
    results.add_check(check_windows_edition(p));
    results.add_check(check_system_type(p));
    results.add_check(check_bios_mode(p));
    results.add_check(check_manufacturer(p));
    results.add_check(check_model(p));
    results.add_check(check_system_uptime(p));
    results
}

} // verus!
