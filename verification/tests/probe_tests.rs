use windows_optimizer::checks::cpu::run_cpu_checks;
use windows_optimizer::checks::gpu::run_gpu_checks;
use windows_optimizer::probe::{
    count_wmi_instances, query_cpu_info, query_service_status, query_wmi_string, query_wmi_u32,
    query_wmi_u64, read_registry_dword, read_registry_string, registry_key_exists,
    registry_value_exists, sanitize_wmi_identifier, CpuInfo, Probe, RegDwordFact, RegStringFact,
    WmiCountFact, WmiU32Fact, WmiU64Fact, HKEY_CURRENT_USER, HKEY_LOCAL_MACHINE,
};
use windows_optimizer::strutil::{contains_lower, str_eq, trim_str, u64_to_dec};
use windows_optimizer::types::CheckStatus;

#[test]
fn registry_lookups_match_hive_path_and_name() {
    let mut probe = Probe::empty();
    probe.reg_dwords.push(RegDwordFact {
        hive: HKEY_LOCAL_MACHINE,
        path: "a".to_string(),
        name: "n".to_string(),
        value: 7,
    });
    assert_eq!(read_registry_dword(&probe, HKEY_LOCAL_MACHINE, "a", "n"), Some(7));
    assert_eq!(read_registry_dword(&probe, HKEY_CURRENT_USER, "a", "n"), None);
    assert_eq!(read_registry_dword(&probe, HKEY_LOCAL_MACHINE, "a", "m"), None);
    assert_eq!(read_registry_dword(&probe, HKEY_LOCAL_MACHINE, "b", "n"), None);
    assert!(registry_value_exists(&probe, HKEY_LOCAL_MACHINE, "a", "n"));
    assert!(!registry_value_exists(&probe, HKEY_LOCAL_MACHINE, "a", "m"));
}

#[test]
fn registry_first_recorded_fact_wins() {
    let mut probe = Probe::empty();
    for v in [1u32, 2u32] {
        probe.reg_dwords.push(RegDwordFact {
            hive: HKEY_LOCAL_MACHINE,
            path: "p".to_string(),
            name: "n".to_string(),
            value: v,
        });
    }
    assert_eq!(read_registry_dword(&probe, HKEY_LOCAL_MACHINE, "p", "n"), Some(1));
}

#[test]
fn registry_key_presence_uses_the_empty_value_name() {
    let mut probe = Probe::empty();
    probe.reg_strings.push(RegStringFact {
        hive: HKEY_LOCAL_MACHINE,
        path: "some\\key".to_string(),
        name: "".to_string(),
        value: "".to_string(),
    });
    assert!(registry_key_exists(&probe, HKEY_LOCAL_MACHINE, "some\\key"));
    assert!(!registry_key_exists(&probe, HKEY_LOCAL_MACHINE, "other"));
    assert_eq!(
        read_registry_string(&probe, HKEY_LOCAL_MACHINE, "some\\key", ""),
        Some("".to_string())
    );
}

#[test]
fn wmi_lookups_reject_unsafe_identifiers() {
    let mut probe = Probe::empty();
    probe.wmi_u32s.push(WmiU32Fact {
        class: "Win32_Processor".to_string(),
        property: "NumberOfCores".to_string(),
        value: 8,
    });
    probe.wmi_u32s.push(WmiU32Fact {
        class: "Bad Class".to_string(),
        property: "X".to_string(),
        value: 1,
    });
    assert!(sanitize_wmi_identifier("Win32_Processor"));
    assert!(!sanitize_wmi_identifier("Bad Class"));
    assert!(!sanitize_wmi_identifier("a;DROP"));
    assert_eq!(query_wmi_u32(&probe, "Win32_Processor", "NumberOfCores"), Some(8));
    assert_eq!(query_wmi_u32(&probe, "Bad Class", "X"), None);
    assert_eq!(query_wmi_string(&probe, "Win32_Processor", "Name"), None);
}

#[test]
fn wmi_u64_and_counts_read_their_tables() {
    let mut probe = Probe::empty();
    probe.wmi_u64s.push(WmiU64Fact {
        class: "Win32_PhysicalMemory".to_string(),
        property: "Capacity".to_string(),
        value: 17_179_869_184,
    });
    probe.wmi_counts.push(WmiCountFact {
        class: "Win32_Processor".to_string(),
        count: 2,
    });
    assert_eq!(
        query_wmi_u64(&probe, "Win32_PhysicalMemory", "Capacity"),
        Some(17_179_869_184)
    );
    assert_eq!(count_wmi_instances(&probe, "Win32_Processor"), 2);
    assert_eq!(count_wmi_instances(&probe, "Win32_DiskDrive"), 0);
}

#[test]
fn service_lookup_is_none_when_unrecorded() {
    let probe = Probe::empty();
    assert_eq!(query_service_status(&probe, "WSearch"), None);
}

#[test]
fn cpu_info_flows_into_the_cpu_category() {
    let mut probe = Probe::empty();
    probe.cpu = Some(CpuInfo {
        name: "  Example CPU 9000  ".to_string(),
        cores: 8,
        logical: 16,
        max_clock: 5000,
        current_clock: 3600,
        l2_cache: 4096,
        l3_cache: 0,
        architecture: 9,
    });
    assert!(query_cpu_info(&probe).is_some());
    let cat = run_cpu_checks(&probe);
    assert_eq!(cat.checks.len(), 38);
    let name = cat.checks.iter().find(|c| c.name == "CPU Name").unwrap();
    assert_eq!(name.value, "Example CPU 9000");
    let arch = cat.checks.iter().find(|c| c.name == "CPU Architecture").unwrap();
    assert_eq!(arch.value, "x64");
    let cores = cat.checks.iter().find(|c| c.name == "CPU Cores").unwrap();
    assert_eq!(cores.value, "8 cores");
    let l3 = cat.checks.iter().find(|c| c.name == "L3 Cache").unwrap();
    assert_eq!(l3.value, "Not reported");
    let l2 = cat.checks.iter().find(|c| c.name == "L2 Cache").unwrap();
    assert_eq!(l2.value, "4096 KB");
}

#[test]
fn power_plan_matches_scheme_identifier_case_insensitively() {
    let mut probe = Probe::empty();
    probe.reg_strings.push(RegStringFact {
        hive: HKEY_LOCAL_MACHINE,
        path: r"SYSTEM\CurrentControlSet\Control\Power\User\PowerSchemes".to_string(),
        name: "ActivePowerScheme".to_string(),
        value: "8C5E7FDA-E8BF-4A96-9A85-A6E23A8C635C".to_string(),
    });
    let cat = run_cpu_checks(&probe);
    let plan = cat.checks.iter().find(|c| c.name == "Active Power Plan").unwrap();
    assert_eq!(plan.value, "High Performance");
    assert_eq!(plan.status, CheckStatus::Optimal);
}

#[test]
fn gpu_info_flows_into_the_gpu_category() {
    let mut probe = Probe::empty();
    probe.gpu = Some(("Example GPU".to_string(), 8 * 1024 * 1024 * 1024));
    let cat = run_gpu_checks(&probe);
    assert_eq!(cat.checks.len(), 49);
    let model = cat.checks.iter().find(|c| c.name == "GPU Model").unwrap();
    assert_eq!(model.value, "Example GPU");
    let vram = cat.checks.iter().find(|c| c.name == "GPU VRAM").unwrap();
    assert_eq!(vram.value, "8192 MB");
}

#[test]
fn text_utilities_behave_as_documented() {
    assert!(str_eq("abc", "abc"));
    assert!(!str_eq("abc", "abd"));
    assert!(!str_eq("abc", "ab"));
    assert_eq!(u64_to_dec(0), "0");
    assert_eq!(u64_to_dec(1_234_567_890), "1234567890");
    assert_eq!(trim_str("  hi there \t"), "hi there");
    assert_eq!(trim_str("   "), "");
    assert!(contains_lower("ABCdef", "cde"));
    assert!(!contains_lower("ABCdef", "xyz"));
    assert!(contains_lower("anything", ""));
}
