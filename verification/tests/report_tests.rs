use windows_optimizer::report::{esc, esc_csv, render_csv, render_html, render_json};
use windows_optimizer::types::{AuditResults, CategoryResults, Check, CheckStatus};

#[test]
fn csv_field_neutralizes_formula_injection() {
    assert_eq!(esc_csv("=1+1"), "'=1+1");
    assert_eq!(esc_csv("5%"), "5%");
}

#[test]
fn csv_field_neutralizes_every_formula_leader() {
    assert_eq!(esc_csv("+SUM(A1)"), "'+SUM(A1)");
    assert_eq!(esc_csv("-2"), "'-2");
    assert_eq!(esc_csv("@cmd"), "'@cmd");
    assert_eq!(esc_csv("\tx"), "'\tx");
    assert_eq!(esc_csv("\rx"), "'\rx");
    assert_eq!(esc_csv("x=1"), "x=1");
    assert_eq!(esc_csv(""), "");
}

#[test]
fn csv_field_doubles_quotes() {
    assert_eq!(esc_csv("a\"b"), "a\"\"b");
    assert_eq!(esc_csv("=a\"b"), "'=a\"\"b");
}

#[test]
fn html_escapes_markup_characters() {
    assert_eq!(esc("<script>"), "&lt;script&gt;");
    assert_eq!(esc("say \"hi\""), "say &quot;hi&quot;");
    assert_eq!(esc("a&b"), "a&amp;b");
    assert_eq!(esc("it's"), "it&#x27;s");
    assert_eq!(esc("plain"), "plain");
}

#[test]
fn csv_document_quotes_every_field_and_keeps_order() {
    let mut results = AuditResults::new();
    let mut cat = CategoryResults::new("Net");
    cat.add_check(
        Check::new("Formula", "=1+1", CheckStatus::Warning).with_description("watch out"),
    );
    cat.add_check(Check::new("Share", "5%", CheckStatus::Optimal));
    results.add_category(cat);
    let csv = render_csv(&results);
    let expected = "Category,Check,Value,Status,Description\n\
                    \"Net\",\"Formula\",\"'=1+1\",\"Warning\",\"watch out\"\n\
                    \"Net\",\"Share\",\"5%\",\"Optimal\",\"\"\n";
    assert_eq!(csv, expected);
}

#[test]
fn csv_document_of_empty_store_is_header_only() {
    let results = AuditResults::new();
    assert_eq!(render_csv(&results), "Category,Check,Value,Status,Description\n");
}

#[test]
fn html_document_escapes_attacker_influenced_fields() {
    let mut results = AuditResults::new();
    let mut cat = CategoryResults::new("Cat & Co");
    cat.add_check(
        Check::new("Name<1>", "<script>", CheckStatus::Issue).with_description("a \"quoted\" note"),
    );
    results.add_category(cat);
    let html = render_html(&results);
    assert!(html.contains("&lt;script&gt;"));
    assert!(html.contains("Cat &amp; Co"));
    assert!(html.contains("Name&lt;1&gt;"));
    assert!(html.contains("a &quot;quoted&quot; note"));
    assert!(!html.contains("<script>"));
}

#[test]
fn html_document_shows_icon_and_class_per_status() {
    let mut results = AuditResults::new();
    let mut cat = CategoryResults::new("Mix");
    cat.add_check(Check::new("a", "1", CheckStatus::Optimal));
    cat.add_check(Check::new("b", "2", CheckStatus::Warning));
    cat.add_check(Check::new("c", "3", CheckStatus::Issue));
    cat.add_check(Check::new("d", "4", CheckStatus::Info));
    results.add_category(cat);
    let html = render_html(&results);
    assert!(html.contains("check-icon optimal\">\u{2713}<"));
    assert!(html.contains("check-icon warning\">\u{26a0}<"));
    assert!(html.contains("check-icon issue\">\u{2717}<"));
    assert!(html.contains("check-icon info\">\u{2139}<"));
    assert!(html.contains("<h2>1</h2><p>Optimal</p>"));
    assert!(html.contains("<h2>1</h2><p>Warnings</p>"));
    assert!(html.contains("<h2>1</h2><p>Issues</p>"));
    assert!(html.contains("<h2>1</h2><p>Info</p>"));
    assert!(html.starts_with("<!DOCTYPE html>"));
    assert!(html.ends_with("</body>\n</html>"));
    assert!(html.contains(&format!("Generated: {}</div>", results.timestamp())));
}

#[test]
fn html_document_omits_empty_descriptions() {
    let mut results = AuditResults::new();
    let mut cat = CategoryResults::new("Solo");
    cat.add_check(Check::new("bare", "v", CheckStatus::Info));
    results.add_category(cat);
    let html = render_html(&results);
    assert!(!html.contains("<div class=\"check-description\">"));
}

#[test]
fn json_document_dumps_structure_with_standard_escaping() {
    let mut results = AuditResults::new();
    let mut cat = CategoryResults::new("Disk");
    cat.add_check(
        Check::new("Quote", "say \"hi\"\n", CheckStatus::Optimal).with_description("plain"),
    );
    results.add_category(cat);
    let json = render_json(&results);
    let expected = format!(
        "{{\n  \"categories\": {{\n    \"Disk\": {{\n      \"name\": \"Disk\",\n      \"checks\": [\n        {{\n          \"name\": \"Quote\",\n          \"value\": \"say \\\"hi\\\"\\n\",\n          \"expected\": null,\n          \"status\": \"Optimal\",\n          \"description\": \"plain\",\n          \"severity\": 5,\n          \"fix_cmd\": null\n        }}\n      ]\n    }}\n  }},\n  \"timestamp\": \"{}\"\n}}",
        results.timestamp()
    );
    assert_eq!(json, expected);
}

#[test]
fn json_document_of_empty_store_has_empty_map() {
    let results = AuditResults::new();
    let json = render_json(&results);
    let expected = format!(
        "{{\n  \"categories\": {{}},\n  \"timestamp\": \"{}\"\n}}",
        results.timestamp()
    );
    assert_eq!(json, expected);
}

#[test]
fn json_escapes_control_characters_numerically() {
    let mut results = AuditResults::new();
    let mut cat = CategoryResults::new("C");
    cat.add_check(Check::new("ctl", "a\u{1}b\tc", CheckStatus::Info));
    results.add_category(cat);
    let json = render_json(&results);
    assert!(json.contains("a\\u0001b\\tc"));
}
