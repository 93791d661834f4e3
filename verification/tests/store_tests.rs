use windows_optimizer::types::{
    AuditResults, Category, CategoryResults, Check, CheckError, CheckStatus,
};

fn check(name: &str, status: CheckStatus) -> Check {
    Check::new(name, "v", status)
}

fn category(name: &str, statuses: &[CheckStatus]) -> CategoryResults {
    let mut cat = CategoryResults::new(name);
    for (i, st) in statuses.iter().enumerate() {
        cat.add_check(check(&format!("c{}", i), *st));
    }
    cat
}

#[test]
fn add_category_then_lookup_returns_checks_unchanged() {
    let mut results = AuditResults::new();
    let cat = category("Network", &[CheckStatus::Optimal, CheckStatus::Info]);
    let expected = cat.checks.clone();
    results.add_category(cat);
    let got = results.get_category("Network").expect("category must be present");
    assert_eq!(got.checks, expected);
}

#[test]
fn add_category_overwrites_by_name_last_write_wins() {
    let mut results = AuditResults::new();
    results.add_category(category("CPU", &[CheckStatus::Warning]));
    results.add_category(category("GPU", &[CheckStatus::Info]));
    let replacement = category("CPU", &[CheckStatus::Optimal, CheckStatus::Optimal]);
    let expected = replacement.checks.clone();
    results.add_category(replacement);
    let got = results.get_category("CPU").expect("category must be present");
    assert_eq!(got.checks, expected);
    assert_eq!(results.categories().len(), 2);
}

#[test]
fn get_category_unknown_name_is_none() {
    let results = AuditResults::new();
    assert!(results.get_category("Nothing").is_none());
}

#[test]
fn total_checks_is_sum_of_lengths() {
    let mut results = AuditResults::new();
    assert_eq!(results.total_checks(), 0);
    results.add_category(category("A", &[CheckStatus::Optimal; 3]));
    assert_eq!(results.total_checks(), 3);
    results.add_category(category("B", &[CheckStatus::Info; 2]));
    assert_eq!(results.total_checks(), 5);
    results.add_category(category("C", &[]));
    assert_eq!(results.total_checks(), 5);
    // Overwriting replaces, it does not add.
    results.add_category(category("A", &[CheckStatus::Issue]));
    assert_eq!(results.total_checks(), 3);
}

#[test]
fn count_status_is_exact_for_every_status() {
    let mut results = AuditResults::new();
    for st in [
        CheckStatus::Optimal,
        CheckStatus::Warning,
        CheckStatus::Issue,
        CheckStatus::Info,
    ] {
        assert_eq!(results.count_status(st), 0);
    }
    results.add_category(category(
        "One",
        &[CheckStatus::Optimal, CheckStatus::Optimal, CheckStatus::Warning],
    ));
    results.add_category(category("Two", &[CheckStatus::Info, CheckStatus::Optimal]));
    assert_eq!(results.count_status(CheckStatus::Optimal), 3);
    assert_eq!(results.count_status(CheckStatus::Warning), 1);
    assert_eq!(results.count_status(CheckStatus::Issue), 0);
    assert_eq!(results.count_status(CheckStatus::Info), 1);
}

#[test]
fn checks_within_limit_holds_for_small_stores() {
    let mut results = AuditResults::new();
    results.add_category(category("A", &[CheckStatus::Optimal; 8]));
    assert!(results.checks_within_limit());
}

#[test]
fn check_builders_set_each_field() {
    let c = Check::new("n", "v", CheckStatus::Info)
        .with_description("d")
        .with_expected("e")
        .with_severity(7)
        .with_fix_cmd("f");
    assert_eq!(c.description, "d");
    assert_eq!(c.expected.as_deref(), Some("e"));
    assert_eq!(c.severity, 7);
    assert_eq!(c.fix_cmd.as_deref(), Some("f"));
}

#[test]
fn with_severity_caps_at_ten() {
    let c = Check::new("n", "v", CheckStatus::Info).with_severity(200);
    assert_eq!(c.severity, 10);
}

#[test]
fn check_error_messages_name_the_source() {
    assert_eq!(
        CheckError::Registry("k".to_string()).message(),
        "Registry: k"
    );
    assert_eq!(CheckError::Wmi("c".to_string()).message(), "WMI: c");
    assert_eq!(
        CheckError::Privilege("admin".to_string()).message(),
        "Privilege: admin"
    );
    assert_eq!(CheckError::Timeout.message(), "Timeout");
    assert_eq!(CheckError::Io("oops".to_string()).message(), "IO: oops");
}

#[test]
fn category_names_round_out_the_catalog() {
    assert_eq!(Category::Latency.as_str(), "latency");
    assert_eq!(Category::Cpu.as_str(), "cpu");
    assert_eq!(Category::Cpu.display_name(), "CPU");
    assert_eq!(Category::Power.display_name(), "Power");
    assert_eq!(Category::Services.as_str(), "services");
}
