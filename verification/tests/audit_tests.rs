use windows_optimizer::audit::{evaluate_category, run_all_checks};
use windows_optimizer::checks::latency::run_latency_checks;
use windows_optimizer::checks::platform::run_platform_checks;
use windows_optimizer::checks::services::run_services_checks;
use windows_optimizer::probe::{
    Probe, RegDwordFact, RegStringFact, ServiceFact, WmiStringFact, HKEY_LOCAL_MACHINE,
};
use windows_optimizer::types::CheckStatus;

const CATALOG: [&str; 14] = [
    "latency",
    "cpu",
    "gpu",
    "memory",
    "storage",
    "network",
    "audio",
    "input",
    "stability",
    "services",
    "security",
    "platform",
    "thermal",
    "power",
];

#[test]
fn full_audit_with_absent_probe_completes_and_fills_every_category() {
    let probe = Probe::empty();
    let results = run_all_checks(&probe, None);
    assert_eq!(results.categories().len(), 14);
    for cat in results.categories() {
        assert!(
            !cat.checks.is_empty(),
            "category {} must fall back to defaults, not vanish",
            cat.name
        );
    }
    assert!(results.total_checks() > 0);
}

#[test]
fn evaluator_is_deterministic_across_runs() {
    let mut probe = Probe::empty();
    probe.reg_dwords.push(RegDwordFact {
        hive: HKEY_LOCAL_MACHINE,
        path: r"SYSTEM\CurrentControlSet\Control\Session Manager\kernel".to_string(),
        name: "DisableDynamicTick".to_string(),
        value: 1,
    });
    let first = run_latency_checks(&probe);
    let second = run_latency_checks(&probe);
    assert_eq!(first.checks, second.checks);
    for name in CATALOG {
        let a = evaluate_category(name, &probe);
        let b = evaluate_category(name, &probe);
        assert_eq!(a.name, b.name);
        assert_eq!(a.checks, b.checks);
    }
}

#[test]
fn unknown_category_currently_yields_empty_but_successful_result() {
    // Source behavior, kept deliberately: a nonexistent name produces an
    // empty category under that name rather than a configuration error.
    let probe = Probe::empty();
    let results = run_all_checks(&probe, Some("nonexistent"));
    assert_eq!(results.categories().len(), 1);
    let cat = results.get_category("nonexistent").expect("stored under the requested name");
    assert!(cat.checks.is_empty());
    assert_eq!(results.total_checks(), 0);
}

#[test]
fn single_category_filter_runs_exactly_that_category() {
    let probe = Probe::empty();
    let results = run_all_checks(&probe, Some("cpu"));
    assert_eq!(results.categories().len(), 1);
    let cat = results.get_category("CPU").expect("stored under its display name");
    assert_eq!(cat.checks.len(), 38);
}

#[test]
fn latency_checks_classify_recorded_facts() {
    let mut probe = Probe::empty();
    probe.reg_dwords.push(RegDwordFact {
        hive: HKEY_LOCAL_MACHINE,
        path: r"SYSTEM\CurrentControlSet\Control\Session Manager\kernel".to_string(),
        name: "DisableDynamicTick".to_string(),
        value: 1,
    });
    probe.reg_dwords.push(RegDwordFact {
        hive: HKEY_LOCAL_MACHINE,
        path: r"SOFTWARE\Microsoft\Windows NT\CurrentVersion\Multimedia\SystemProfile"
            .to_string(),
        name: "SystemResponsiveness".to_string(),
        value: 40,
    });
    let cat = run_latency_checks(&probe);
    let tick = cat.checks.iter().find(|c| c.name == "Dynamic Tick").unwrap();
    assert_eq!(tick.value, "Disabled");
    assert_eq!(tick.status, CheckStatus::Optimal);
    let resp = cat
        .checks
        .iter()
        .find(|c| c.name == "System Responsiveness (MMCSS)")
        .unwrap();
    assert_eq!(resp.value, "40%");
    assert_eq!(resp.status, CheckStatus::Issue);
}

#[test]
fn latency_defaults_applied_on_absence() {
    let probe = Probe::empty();
    let cat = run_latency_checks(&probe);
    let resp = cat
        .checks
        .iter()
        .find(|c| c.name == "System Responsiveness (MMCSS)")
        .unwrap();
    assert_eq!(resp.value, "20%");
    assert_eq!(resp.status, CheckStatus::Warning);
    let tick = cat.checks.iter().find(|c| c.name == "Dynamic Tick").unwrap();
    assert_eq!(tick.value, "Enabled");
    assert_eq!(tick.status, CheckStatus::Warning);
}

#[test]
fn services_report_recorded_state_or_unknown() {
    let mut probe = Probe::empty();
    probe.services.push(ServiceFact {
        name: "DiagTrack".to_string(),
        state: "Running".to_string(),
    });
    let cat = run_services_checks(&probe);
    assert_eq!(cat.checks.len(), 51);
    let diag = cat
        .checks
        .iter()
        .find(|c| c.name == "DiagTrack (Telemetry)")
        .unwrap();
    assert_eq!(diag.value, "Running");
    assert_eq!(diag.status, CheckStatus::Warning);
    let spooler = cat.checks.iter().find(|c| c.name == "Print Spooler").unwrap();
    assert_eq!(spooler.value, "Unknown");
}

#[test]
fn platform_reads_instrumentation_and_registry_facts() {
    let mut probe = Probe::empty();
    probe.wmi_strings.push(WmiStringFact {
        class: "Win32_OperatingSystem".to_string(),
        property: "Caption".to_string(),
        value: "Test OS 11".to_string(),
    });
    probe.reg_strings.push(RegStringFact {
        hive: HKEY_LOCAL_MACHINE,
        path: r"SOFTWARE\Microsoft\Windows NT\CurrentVersion".to_string(),
        name: "EditionID".to_string(),
        value: "Professional".to_string(),
    });
    let cat = run_platform_checks(&probe);
    assert_eq!(cat.checks.len(), 8);
    assert_eq!(cat.checks[0].name, "Windows Version");
    assert_eq!(cat.checks[0].value, "Test OS 11");
    let edition = cat.checks.iter().find(|c| c.name == "Windows Edition").unwrap();
    assert_eq!(edition.value, "Professional");
    let bios = cat.checks.iter().find(|c| c.name == "BIOS Mode").unwrap();
    assert_eq!(bios.value, "Unknown");
}
