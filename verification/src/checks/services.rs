//! Services category: the recorded state of each catalogued service.

use crate::checks::support::{service_check, spec_service_check};
use crate::probe::{Probe, ProbeModel};
use crate::types::{CategoryResults, CheckModel, CheckStatus};
use vstd::prelude::*;

verus! {

/// The Services category's checks, in declared order.
pub open spec fn spec_services_checks(p: ProbeModel) -> Seq<CheckModel> {
    Seq::empty()
        .push(spec_service_check(p, "DiagTrack"@, "DiagTrack (Telemetry)"@, CheckStatus::Warning, "Can be disabled for privacy."@))
        .push(spec_service_check(p, "dmwappushservice"@, "dmwappushservice"@, CheckStatus::Info, "Push notification service."@))
        .push(spec_service_check(p, "SysMain"@, "SysMain (Superfetch)"@, CheckStatus::Info, "Preloads apps."@))
        .push(spec_service_check(p, "TabletInputService"@, "TabletInputService"@, CheckStatus::Info, "Tablet PC input."@))
        .push(spec_service_check(p, "WSearch"@, "WSearch (Windows Search)"@, CheckStatus::Info, "File indexing."@))
        .push(spec_service_check(p, "XblAuthManager"@, "XblAuthManager"@, CheckStatus::Info, "Xbox Live Auth."@))
        .push(spec_service_check(p, "XblGameSave"@, "XblGameSave"@, CheckStatus::Info, "Xbox Game Save."@))
        .push(spec_service_check(p, "XboxNetApiSvc"@, "XboxNetApiSvc"@, CheckStatus::Info, "Xbox Network."@))
        .push(spec_service_check(p, "XboxGipSvc"@, "XboxGipSvc"@, CheckStatus::Info, "Xbox Accessory Management."@))
        .push(spec_service_check(p, "wuauserv"@, "Windows Update"@, CheckStatus::Optimal, "System updates."@))
        .push(spec_service_check(p, "WinDefend"@, "Windows Defender"@, CheckStatus::Optimal, "Antivirus protection."@))
        .push(spec_service_check(p, "MpsSvc"@, "Windows Firewall"@, CheckStatus::Optimal, "Network security."@))
        .push(spec_service_check(p, "Schedule"@, "Task Scheduler"@, CheckStatus::Optimal, "Scheduled tasks."@))
        .push(spec_service_check(p, "PlugPlay"@, "Plug and Play"@, CheckStatus::Optimal, "Device detection."@))
        .push(spec_service_check(p, "RpcSs"@, "RPC Service"@, CheckStatus::Optimal, "Remote procedure calls."@))
        .push(spec_service_check(p, "DcomLaunch"@, "DCOM Server"@, CheckStatus::Optimal, "Component services."@))
        .push(spec_service_check(p, "CryptSvc"@, "Cryptographic Services"@, CheckStatus::Optimal, "Encryption services."@))
        .push(spec_service_check(p, "AudioSrv"@, "Windows Audio"@, CheckStatus::Optimal, "Audio management."@))
        .push(spec_service_check(p, "AudioEndpointBuilder"@, "Windows Audio Endpoint Builder"@, CheckStatus::Optimal, "Audio device management."@))
        .push(spec_service_check(p, "Themes"@, "Themes"@, CheckStatus::Info, "Visual themes."@))
        .push(spec_service_check(p, "Spooler"@, "Print Spooler"@, CheckStatus::Info, "Print management."@))
        .push(spec_service_check(p, "BITS"@, "Background Intelligent Transfer"@, CheckStatus::Info, "Background downloads."@))
        .push(spec_service_check(p, "WbioSrvc"@, "Windows Biometric Service"@, CheckStatus::Info, "Biometric devices."@))
        .push(spec_service_check(p, "TermService"@, "Remote Desktop Services"@, CheckStatus::Info, "Remote desktop."@))
        .push(spec_service_check(p, "Fax"@, "Fax"@, CheckStatus::Info, "Fax service."@))
        .push(spec_service_check(p, "HomeGroupListener"@, "HomeGroup Listener"@, CheckStatus::Info, "HomeGroup."@))
        .push(spec_service_check(p, "HomeGroupProvider"@, "HomeGroup Provider"@, CheckStatus::Info, "HomeGroup."@))
        .push(spec_service_check(p, "icssvc"@, "Windows Mobile Hotspot"@, CheckStatus::Info, "Mobile hotspot."@))
        .push(spec_service_check(p, "PhoneSvc"@, "Phone Service"@, CheckStatus::Info, "Phone functionality."@))
        .push(spec_service_check(p, "RetailDemo"@, "Retail Demo Service"@, CheckStatus::Info, "Demo mode."@))
        .push(spec_service_check(p, "SensorService"@, "Sensor Service"@, CheckStatus::Info, "Sensor management."@))
        .push(spec_service_check(p, "ScDeviceEnum"@, "Smart Card Device Enumeration"@, CheckStatus::Info, "Smart card."@))
        .push(spec_service_check(p, "SCPolicySvc"@, "Smart Card Removal Policy"@, CheckStatus::Info, "Smart card."@))
        .push(spec_service_check(p, "WiaRpc"@, "Windows Image Acquisition"@, CheckStatus::Info, "Scanner/camera."@))
        .push(spec_service_check(p, "wcncsvc"@, "Windows Connect Now"@, CheckStatus::Info, "Network setup."@))
        .push(spec_service_check(p, "WalletService"@, "WalletService"@, CheckStatus::Info, "Wallet service."@))
        .push(spec_service_check(p, "wisvc"@, "Windows Insider Service"@, CheckStatus::Info, "Insider builds."@))
        .push(spec_service_check(p, "MapsBroker"@, "Downloaded Maps Manager"@, CheckStatus::Info, "Offline maps."@))
        .push(spec_service_check(p, "lfsvc"@, "Geolocation Service"@, CheckStatus::Info, "Location services."@))
        .push(spec_service_check(p, "RemoteRegistry"@, "Remote Registry"@, CheckStatus::Info, "Remote registry access."@))
        .push(spec_service_check(p, "CDPUserSvc"@, "Connected User Experiences"@, CheckStatus::Info, "Connected experiences."@))
        .push(spec_service_check(p, "EventLog"@, "Windows Event Log"@, CheckStatus::Optimal, "Event logging."@))
        .push(spec_service_check(p, "EventSystem"@, "COM+ Event System"@, CheckStatus::Optimal, "COM+ events."@))
        .push(spec_service_check(p, "MSDTC"@, "Distributed Transaction Coordinator"@, CheckStatus::Info, "Distributed transactions."@))
        .push(spec_service_check(p, "Winmgmt"@, "Windows Management Instrumentation"@, CheckStatus::Optimal, "WMI service."@))
        .push(spec_service_check(p, "ShellHWDetection"@, "Shell Hardware Detection"@, CheckStatus::Info, "Hardware events."@))
        .push(spec_service_check(p, "SamSs"@, "Security Accounts Manager"@, CheckStatus::Optimal, "Account management."@))
        .push(spec_service_check(p, "LanmanServer"@, "Server"@, CheckStatus::Info, "File sharing."@))
        .push(spec_service_check(p, "LanmanWorkstation"@, "Workstation"@, CheckStatus::Optimal, "Network connections."@))
        .push(spec_service_check(p, "netprofm"@, "Network List Service"@, CheckStatus::Optimal, "Network identification."@))
        .push(spec_service_check(p, "Dnscache"@, "DNS Client"@, CheckStatus::Optimal, "DNS resolution."@))
}

/// Evaluates the Services category.
pub fn run_services_checks(p: &Probe) -> (r: CategoryResults)
    ensures
        r@.name == "Services"@,
        r@.checks == spec_services_checks(p@),
{
    let mut results = CategoryResults::new("Services");
    results.add_check(service_check(p, "DiagTrack", "DiagTrack (Telemetry)", CheckStatus::Warning, "Can be disabled for privacy."));
    results.add_check(service_check(p, "dmwappushservice", "dmwappushservice", CheckStatus::Info, "Push notification service."));
    results.add_check(service_check(p, "SysMain", "SysMain (Superfetch)", CheckStatus::Info, "Preloads apps."));
    results.add_check(service_check(p, "TabletInputService", "TabletInputService", CheckStatus::Info, "Tablet PC input."));
    results.add_check(service_check(p, "WSearch", "WSearch (Windows Search)", CheckStatus::Info, "File indexing."));
    results.add_check(service_check(p, "XblAuthManager", "XblAuthManager", CheckStatus::Info, "Xbox Live Auth."));
    results.add_check(service_check(p, "XblGameSave", "XblGameSave", CheckStatus::Info, "Xbox Game Save."));
    results.add_check(service_check(p, "XboxNetApiSvc", "XboxNetApiSvc", CheckStatus::Info, "Xbox Network."));
    results.add_check(service_check(p, "XboxGipSvc", "XboxGipSvc", CheckStatus::Info, "Xbox Accessory Management."));
    results.add_check(service_check(p, "wuauserv", "Windows Update", CheckStatus::Optimal, "System updates."));
    results.add_check(service_check(p, "WinDefend", "Windows Defender", CheckStatus::Optimal, "Antivirus protection."));
    results.add_check(service_check(p, "MpsSvc", "Windows Firewall", CheckStatus::Optimal, "Network security."));
    results.add_check(service_check(p, "Schedule", "Task Scheduler", CheckStatus::Optimal, "Scheduled tasks."));
    results.add_check(service_check(p, "PlugPlay", "Plug and Play", CheckStatus::Optimal, "Device detection."));
    results.add_check(service_check(p, "RpcSs", "RPC Service", CheckStatus::Optimal, "Remote procedure calls."));
    results.add_check(service_check(p, "DcomLaunch", "DCOM Server", CheckStatus::Optimal, "Component services."));
    results.add_check(service_check(p, "CryptSvc", "Cryptographic Services", CheckStatus::Optimal, "Encryption services."));
    results.add_check(service_check(p, "AudioSrv", "Windows Audio", CheckStatus::Optimal, "Audio management."));
    results.add_check(service_check(p, "AudioEndpointBuilder", "Windows Audio Endpoint Builder", CheckStatus::Optimal, "Audio device management."));
    results.add_check(service_check(p, "Themes", "Themes", CheckStatus::Info, "Visual themes."));
    results.add_check(service_check(p, "Spooler", "Print Spooler", CheckStatus::Info, "Print management."));
    results.add_check(service_check(p, "BITS", "Background Intelligent Transfer", CheckStatus::Info, "Background downloads."));
    results.add_check(service_check(p, "WbioSrvc", "Windows Biometric Service", CheckStatus::Info, "Biometric devices."));
    results.add_check(service_check(p, "TermService", "Remote Desktop Services", CheckStatus::Info, "Remote desktop."));
    results.add_check(service_check(p, "Fax", "Fax", CheckStatus::Info, "Fax service."));
    results.add_check(service_check(p, "HomeGroupListener", "HomeGroup Listener", CheckStatus::Info, "HomeGroup."));
    results.add_check(service_check(p, "HomeGroupProvider", "HomeGroup Provider", CheckStatus::Info, "HomeGroup."));
    results.add_check(service_check(p, "icssvc", "Windows Mobile Hotspot", CheckStatus::Info, "Mobile hotspot."));
    results.add_check(service_check(p, "PhoneSvc", "Phone Service", CheckStatus::Info, "Phone functionality."));
    results.add_check(service_check(p, "RetailDemo", "Retail Demo Service", CheckStatus::Info, "Demo mode."));
    results.add_check(service_check(p, "SensorService", "Sensor Service", CheckStatus::Info, "Sensor management."));
    results.add_check(service_check(p, "ScDeviceEnum", "Smart Card Device Enumeration", CheckStatus::Info, "Smart card."));
    results.add_check(service_check(p, "SCPolicySvc", "Smart Card Removal Policy", CheckStatus::Info, "Smart card."));
    results.add_check(service_check(p, "WiaRpc", "Windows Image Acquisition", CheckStatus::Info, "Scanner/camera."));
    results.add_check(service_check(p, "wcncsvc", "Windows Connect Now", CheckStatus::Info, "Network setup."));
    results.add_check(service_check(p, "WalletService", "WalletService", CheckStatus::Info, "Wallet service."));
    results.add_check(service_check(p, "wisvc", "Windows Insider Service", CheckStatus::Info, "Insider builds."));
    results.add_check(service_check(p, "MapsBroker", "Downloaded Maps Manager", CheckStatus::Info, "Offline maps."));
    results.add_check(service_check(p, "lfsvc", "Geolocation Service", CheckStatus::Info, "Location services."));
    results.add_check(service_check(p, "RemoteRegistry", "Remote Registry", CheckStatus::Info, "Remote registry access."));
    results.add_check(service_check(p, "CDPUserSvc", "Connected User Experiences", CheckStatus::Info, "Connected experiences."));
    results.add_check(service_check(p, "EventLog", "Windows Event Log", CheckStatus::Optimal, "Event logging."));
    results.add_check(service_check(p, "EventSystem", "COM+ Event System", CheckStatus::Optimal, "COM+ events."));
    results.add_check(service_check(p, "MSDTC", "Distributed Transaction Coordinator", CheckStatus::Info, "Distributed transactions."));
    results.add_check(service_check(p, "Winmgmt", "Windows Management Instrumentation", CheckStatus::Optimal, "WMI service."));
    results.add_check(service_check(p, "ShellHWDetection", "Shell Hardware Detection", CheckStatus::Info, "Hardware events."));
    results.add_check(service_check(p, "SamSs", "Security Accounts Manager", CheckStatus::Optimal, "Account management."));
    results.add_check(service_check(p, "LanmanServer", "Server", CheckStatus::Info, "File sharing."));
    results.add_check(service_check(p, "LanmanWorkstation", "Workstation", CheckStatus::Optimal, "Network connections."));
    results.add_check(service_check(p, "netprofm", "Network List Service", CheckStatus::Optimal, "Network identification."));
    results.add_check(service_check(p, "Dnscache", "DNS Client", CheckStatus::Optimal, "DNS resolution."));
    results
}

} // verus!
