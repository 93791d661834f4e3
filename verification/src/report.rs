//! The report emitter: serializes an [`AuditResults`] to JSON, CSV, or
//! HTML text. Each format has its own escaping contract: CSV neutralizes
//! spreadsheet formula injection, HTML entity-escapes every free-text
//! field, JSON uses standard JSON string encoding.

use crate::strutil::{dec_digit, dec_str, push_char, usize_to_dec};
use crate::types::{
    count_status_spec,
    total_checks_spec,
    AuditResults,
    CategoryModel,
    CategoryResults,
    Check,
    CheckModel,
    CheckStatus,
    ResultsModel,
};
use vstd::prelude::*;

verus! {

/// Replaces every character of `s` by its expansion under `f`, keeping
/// order.
pub open spec fn char_expansion(s: Seq<char>, f: spec_fn(char) -> Seq<char>) -> Seq<char>
    decreases s.len(),
{
    if s.len() == 0 {
        Seq::empty()
    } else {
        f(s[0]) + char_expansion(s.drop_first(), f)
    }
}

/// Expanding one more character appends exactly its expansion.
pub proof fn lemma_char_expansion_push(s: Seq<char>, c: char, f: spec_fn(char) -> Seq<char>)
    ensures
        char_expansion(s.push(c), f) == char_expansion(s, f) + f(c),
    decreases s.len(),
{
    if s.len() == 0 {
        assert(s.push(c)[0] == c);
        assert(s.push(c).drop_first() =~= Seq::<char>::empty());
        assert(char_expansion(s.push(c), f) == f(c) + char_expansion(
            Seq::<char>::empty(),
            f,
        ));
        assert(char_expansion(Seq::<char>::empty(), f) == Seq::<char>::empty());
        assert(f(c) + Seq::<char>::empty() =~= f(c));
        assert(char_expansion(s, f) == Seq::<char>::empty());
        assert(Seq::<char>::empty() + f(c) =~= f(c));
    } else {
        assert(s.push(c).drop_first() =~= s.drop_first().push(c));
        lemma_char_expansion_push(s.drop_first(), c, f);
        assert(char_expansion(s.push(c), f) == f(s[0]) + (char_expansion(s.drop_first(), f) + f(
            c,
        )));
        assert(f(s[0]) + (char_expansion(s.drop_first(), f) + f(c)) =~= (f(s[0]) + char_expansion(
            s.drop_first(),
            f,
        )) + f(c));
    }
}

/// Prefix form of the step lemma, for loop invariants.
pub proof fn lemma_char_expansion_take(s: Seq<char>, f: spec_fn(char) -> Seq<char>, i: int)
    requires
        0 <= i < s.len(),
    ensures
        char_expansion(s.take(i + 1), f) == char_expansion(s.take(i), f) + f(s[i]),
{
    assert(s.take(i + 1) =~= s.take(i).push(s[i]));
    lemma_char_expansion_push(s.take(i), s[i], f);
}

/// The HTML entity expansion of one character: the five characters with
/// meaning in markup become entities, every other character stays.
pub open spec fn esc_html_char(c: char) -> Seq<char> {
    if c == '&' {
        "&amp;"@
    } else if c == '<' {
        "&lt;"@
    } else if c == '>' {
        "&gt;"@
    } else if c == '"' {
        "&quot;"@
    } else if c == '\'' {
        "&#x27;"@
    } else {
        seq![c]
    }
}

pub open spec fn esc_html_char_fn() -> spec_fn(char) -> Seq<char> {
    |c: char| esc_html_char(c)
}

/// The HTML-escaped form of a text: every `& < > " '` replaced by its
/// entity, all other characters kept in place.
pub open spec fn esc_html_spec(s: Seq<char>) -> Seq<char> {
    char_expansion(s, esc_html_char_fn())
}

/// HTML-escapes a free-text field for embedding in markup.
pub fn esc(s: &str) -> (r: String)
    ensures
        r@ == esc_html_spec(s@),
{
    let n = s.unicode_len();
    let mut out = String::new();
    let mut i: usize = 0;
    while i < n
        invariant
            0 <= i <= n,
            n == s@.len(),
            out@ == char_expansion(s@.take(i as int), esc_html_char_fn()),
        decreases n - i,
    {
        proof {
            lemma_char_expansion_take(s@, esc_html_char_fn(), i as int);
        }
        let c = s.get_char(i);
        if c == '&' {
            out.append("&amp;");
        } else if c == '<' {
            out.append("&lt;");
        } else if c == '>' {
            out.append("&gt;");
        } else if c == '"' {
            out.append("&quot;");
        } else if c == '\'' {
            out.append("&#x27;");
        } else {
            push_char(&mut out, c);
        }
        i = i + 1;
    }
    proof {
        assert(s@.take(n as int) =~= s@);
    }
    out
}

/// The CSV expansion of one character: a literal double quote is
/// doubled, everything else stays.
pub open spec fn csv_char(c: char) -> Seq<char> {
    if c == '"' {
        "\"\""@
    } else {
        seq![c]
    }
}

pub open spec fn csv_char_fn() -> spec_fn(char) -> Seq<char> {
    |c: char| csv_char(c)
}

/// Whether a leading character would make a spreadsheet read the field
/// as a formula.
pub open spec fn is_formula_char(c: char) -> bool {
    c == '=' || c == '+' || c == '-' || c == '@' || c == '\t' || c == '\r'
}

/// The CSV-neutralized form of a field: quotes doubled throughout, and a
/// single leading apostrophe prepended exactly when the field's first
/// character could start a spreadsheet formula.
pub open spec fn esc_csv_spec(s: Seq<char>) -> Seq<char> {
    let cleaned = char_expansion(s, csv_char_fn());
    if s.len() > 0 && is_formula_char(s[0]) {
        seq!['\''] + cleaned
    } else {
        cleaned
    }
}

/// Neutralizes a CSV field against formula injection.
pub fn esc_csv(s: &str) -> (r: String)
    ensures
        r@ == esc_csv_spec(s@),
{
    let n = s.unicode_len();
    let mut out = String::new();
    if n > 0 {
        let c0 = s.get_char(0);
        if c0 == '=' || c0 == '+' || c0 == '-' || c0 == '@' || c0 == '\t' || c0 == '\r' {
            push_char(&mut out, '\'');
        }
    }
    let ghost prefix = out@;
    let mut i: usize = 0;
    while i < n
        invariant
            0 <= i <= n,
            n == s@.len(),
            out@ == prefix + char_expansion(s@.take(i as int), csv_char_fn()),
        decreases n - i,
    {
        proof {
            lemma_char_expansion_take(s@, csv_char_fn(), i as int);
            assert(prefix + (char_expansion(s@.take(i as int), csv_char_fn()) + csv_char(
                s@[i as int],
            )) =~= (prefix + char_expansion(s@.take(i as int), csv_char_fn())) + csv_char(
                s@[i as int],
            ));
        }
        let c = s.get_char(i);
        if c == '"' {
            out.append("\"\"");
        } else {
            push_char(&mut out, c);
        }
        i = i + 1;
    }
    proof {
        assert(s@.take(n as int) =~= s@);
        if !(s@.len() > 0 && is_formula_char(s@[0])) {
            assert(prefix =~= Seq::<char>::empty());
            assert(prefix + char_expansion(s@, csv_char_fn()) =~= char_expansion(
                s@,
                csv_char_fn(),
            ));
        } else {
            assert(prefix =~= seq!['\'']);
        }
    }
    out
}

/// The serialized name of a status.
pub open spec fn status_name(st: CheckStatus) -> Seq<char> {
    match st {
        CheckStatus::Optimal => "Optimal"@,
        CheckStatus::Warning => "Warning"@,
        CheckStatus::Issue => "Issue"@,
        CheckStatus::Info => "Info"@,
    }
}

/// The serialized name of a status.
pub fn status_name_str(st: CheckStatus) -> (r: &'static str)
    ensures
        r@ == status_name(st),
{
    match st {
        CheckStatus::Optimal => "Optimal",
        CheckStatus::Warning => "Warning",
        CheckStatus::Issue => "Issue",
        CheckStatus::Info => "Info",
    }
}

/// The display icon of a status.
pub open spec fn status_icon(st: CheckStatus) -> Seq<char> {
    match st {
        CheckStatus::Optimal => "\u{2713}"@,
        CheckStatus::Warning => "\u{26a0}"@,
        CheckStatus::Issue => "\u{2717}"@,
        CheckStatus::Info => "\u{2139}"@,
    }
}

/// The display icon of a status.
pub fn status_icon_str(st: CheckStatus) -> (r: &'static str)
    ensures
        r@ == status_icon(st),
{
    match st {
        CheckStatus::Optimal => "\u{2713}",
        CheckStatus::Warning => "\u{26a0}",
        CheckStatus::Issue => "\u{2717}",
        CheckStatus::Info => "\u{2139}",
    }
}

/// The style class of a status.
pub open spec fn status_class(st: CheckStatus) -> Seq<char> {
    match st {
        CheckStatus::Optimal => "optimal"@,
        CheckStatus::Warning => "warning"@,
        CheckStatus::Issue => "issue"@,
        CheckStatus::Info => "info"@,
    }
}

/// The style class of a status.
pub fn status_class_str(st: CheckStatus) -> (r: &'static str)
    ensures
        r@ == status_class(st),
{
    match st {
        CheckStatus::Optimal => "optimal",
        CheckStatus::Warning => "warning",
        CheckStatus::Issue => "issue",
        CheckStatus::Info => "info",
    }
}

/// One CSV field: neutralized and wrapped in double quotes.
pub open spec fn csv_field(s: Seq<char>) -> Seq<char> {
    seq!['"'] + esc_csv_spec(s) + seq!['"']
}

/// One CSV data row: category, check, value, status name, description,
/// every field quoted, ending in a newline.
pub open spec fn csv_row(cat: Seq<char>, c: CheckModel) -> Seq<char> {
    csv_field(cat) + ","@ + csv_field(c.name) + ","@ + csv_field(c.value) + ","@ + (seq!['"']
        + status_name(c.status) + seq!['"']) + ","@ + csv_field(c.description) + "\n"@
}

/// The rows of one category, in check order.
pub open spec fn csv_rows(cat: Seq<char>, checks: Seq<CheckModel>) -> Seq<char>
    decreases checks.len(),
{
    if checks.len() == 0 {
        Seq::empty()
    } else {
        csv_rows(cat, checks.drop_last()) + csv_row(cat, checks.last())
    }
}

/// The rows of all categories, in storage order.
pub open spec fn csv_body(cats: Seq<CategoryModel>) -> Seq<char>
    decreases cats.len(),
{
    if cats.len() == 0 {
        Seq::empty()
    } else {
        csv_body(cats.drop_last()) + csv_rows(cats.last().name, cats.last().checks)
    }
}

/// The complete CSV document: a fixed header row, then one row per
/// check across all categories.
pub open spec fn render_csv_spec(m: ResultsModel) -> Seq<char> {
    "Category,Check,Value,Status,Description\n"@ + csv_body(m.categories)
}

/// One more check appends exactly one row.
pub proof fn lemma_csv_rows_take(cat: Seq<char>, checks: Seq<CheckModel>, j: int)
    requires
        0 <= j < checks.len(),
    ensures
        csv_rows(cat, checks.take(j + 1)) == csv_rows(cat, checks.take(j)) + csv_row(
            cat,
            checks[j],
        ),
{
    assert(checks.take(j + 1).drop_last() =~= checks.take(j));
    assert(checks.take(j + 1).last() == checks[j]);
}

/// One more category appends exactly its rows.
pub proof fn lemma_csv_body_take(cats: Seq<CategoryModel>, i: int)
    requires
        0 <= i < cats.len(),
    ensures
        csv_body(cats.take(i + 1)) == csv_body(cats.take(i)) + csv_rows(
            cats[i].name,
            cats[i].checks,
        ),
{
    assert(cats.take(i + 1).drop_last() =~= cats.take(i));
    assert(cats.take(i + 1).last() == cats[i]);
}

/// Appends one quoted, neutralized field.
fn append_csv_field(out: &mut String, s: &str)
    ensures
        final(out)@ == old(out)@ + csv_field(s@),
{
    push_char(out, '"');
    let e = esc_csv(s);
    out.append(e.as_str());
    push_char(out, '"');
    proof {
        assert(out@ =~= old(out)@ + csv_field(s@));
    }
}

/// Appends one data row for a check of the given category.
fn append_csv_row(out: &mut String, cat_name: &str, check: &Check)
    ensures
        final(out)@ == old(out)@ + csv_row(cat_name@, check@),
{
    append_csv_field(out, cat_name);
    push_char(out, ',');
    append_csv_field(out, check.name.as_str());
    push_char(out, ',');
    append_csv_field(out, check.value.as_str());
    push_char(out, ',');
    push_char(out, '"');
    out.append(status_name_str(check.status));
    push_char(out, '"');
    push_char(out, ',');
    append_csv_field(out, check.description.as_str());
    push_char(out, '\n');
    proof {
        reveal_strlit(",");
        reveal_strlit("\n");
        assert(out@ =~= old(out)@ + csv_row(cat_name@, check@));
    }
}

/// The complete CSV document for a result store: the header row, then
/// one quote-wrapped, injection-neutralized row per check, category by
/// category in storage order.
pub fn render_csv(results: &AuditResults) -> (r: String)
    ensures
        r@ == render_csv_spec(results@),
{
    let ghost m = results@.categories;
    let mut out = String::from_str("Category,Check,Value,Status,Description\n");
    let cats = results.categories();
    let n = cats.len();
    let mut i: usize = 0;
    while i < n
        invariant
            0 <= i <= n,
            n == cats.len(),
            cats@.map_values(|c: CategoryResults| c@) == m,
            out@ == "Category,Check,Value,Status,Description\n"@ + csv_body(m.take(i as int)),
        decreases n - i,
    {
        proof {
            assert(m[i as int] == cats@[i as int]@);
        }
        let cat = &cats[i];
        let clen = cat.checks.len();
        let mut j: usize = 0;
        while j < clen
            invariant
                0 <= j <= clen,
                0 <= i < n,
                n == cats.len(),
                cats@.map_values(|c: CategoryResults| c@) == m,
                clen == cat.checks.len(),
                cat == &cats[i as int],
                m[i as int] == cat@,
                out@ == "Category,Check,Value,Status,Description\n"@ + csv_body(m.take(i as int))
                    + csv_rows(cat@.name, cat@.checks.take(j as int)),
            decreases clen - j,
        {
            proof {
                lemma_csv_rows_take(cat@.name, cat@.checks, j as int);
                assert(cat@.checks[j as int] == cat.checks@[j as int]@);
            }
            let ghost pre = out@;
            append_csv_row(&mut out, cat.name.as_str(), &cat.checks[j]);
            proof {
                assert(out@ =~= "Category,Check,Value,Status,Description\n"@ + csv_body(
                    m.take(i as int),
                ) + csv_rows(cat@.name, cat@.checks.take(j + 1)));
            }
            j = j + 1;
        }
        proof {
            assert(cat@.checks.take(clen as int) =~= cat@.checks);
            lemma_csv_body_take(m, i as int);
            assert("Category,Check,Value,Status,Description\n"@ + csv_body(m.take(i as int))
                + csv_rows(cat@.name, cat@.checks) =~= "Category,Check,Value,Status,Description\n"@
                + csv_body(m.take(i + 1)));
        }
        i = i + 1;
    }
    proof {
        assert(m.take(n as int) =~= m);
    }
    out
}

/// The fixed document head: markup and styles up to the timestamp line.
pub open spec fn html_head() -> Seq<char> {
    r#"<!DOCTYPE html>
<html>
<head>
    <meta charset="UTF-8">
    <title>Windows Optimizer Report</title>
    <style>
        body {
            font-family: 'Segoe UI', Tahoma, Geneva, Verdana, sans-serif;
            margin: 0;
            padding: 20px;
            background: #1e1e1e;
            color: #d4d4d4;
        }
        .header {
            background: linear-gradient(135deg, #667eea 0%, #764ba2 100%);
            padding: 30px;
            border-radius: 10px;
            margin-bottom: 30px;
            text-align: center;
        }
        h1 { margin: 0; color: white; }
        .timestamp { color: rgba(255,255,255,0.8); margin-top: 10px; }
        .summary {
            display: grid;
            grid-template-columns: repeat(auto-fit, minmax(200px, 1fr));
            gap: 20px;
            margin-bottom: 30px;
        }
        .summary-card {
            background: #2d2d30;
            padding: 20px;
            border-radius: 8px;
            border-left: 4px solid;
        }
        .optimal { border-color: #4ec9b0; }
        .warning { border-color: #ce9178; }
        .issue { border-color: #f48771; }
        .info { border-color: #4fc1ff; }
        .category {
            background: #2d2d30;
            margin-bottom: 20px;
            border-radius: 8px;
            overflow: hidden;
        }
        .category-header {
            background: #37373d;
            padding: 15px;
            font-weight: bold;
            font-size: 1.2em;
        }
        .check {
            padding: 12px 15px;
            border-bottom: 1px solid #3e3e42;
            display: grid;
            grid-template-columns: 30px 1fr 1fr;
            gap: 15px;
            align-items: center;
        }
        .check:last-child { border-bottom: none; }
        .check-icon { font-size: 1.2em; }
        .check-name { font-weight: 500; }
        .check-value { color: #9cdcfe; }
        .check-description { 
            grid-column: 2 / -1; 
            font-size: 0.9em; 
            color: #858585;
            margin-top: 5px;
        }
    </style>
</head>
<body>
    <div class="header">
        <h1>🚀 Windows Optimizer Report</h1>
        <div class="timestamp">"#@
}

/// One summary card: a styled box holding a status count and its label.
pub open spec fn html_summary_card(class: Seq<char>, label: Seq<char>, count: nat) -> Seq<char> {
    "        <div class=\"summary-card "@ + class + "\"><h2>"@ + dec_str(count) + "</h2><p>"@
        + label + "</p></div>\n"@
}

/// One check row: icon and style class from the status, the name and
/// value entity-escaped, and the description row only when non-empty.
pub open spec fn html_check(c: CheckModel) -> Seq<char> {
    "        <div class=\"check\">\n            <div class=\"check-icon "@ + status_class(c.status)
        + "\">"@ + status_icon(c.status) + "</div>\n            <div class=\"check-name\">"@
        + esc_html_spec(c.name) + "</div>\n            <div class=\"check-value\">"@
        + esc_html_spec(c.value) + "</div>\n"@ + (if c.description.len() > 0 {
        "            <div class=\"check-description\">"@ + esc_html_spec(c.description)
            + "</div>\n"@
    } else {
        Seq::empty()
    }) + "        </div>\n"@
}

/// The rows of one category, in check order.
pub open spec fn html_checks(checks: Seq<CheckModel>) -> Seq<char>
    decreases checks.len(),
{
    if checks.len() == 0 {
        Seq::empty()
    } else {
        html_checks(checks.drop_last()) + html_check(checks.last())
    }
}

/// One category section: an escaped header, then its check rows.
pub open spec fn html_category(cat: CategoryModel) -> Seq<char> {
    "    <div class=\"category\">\n        <div class=\"category-header\">"@ + esc_html_spec(
        cat.name,
    ) + "</div>\n"@ + html_checks(cat.checks) + "    </div>\n"@
}

/// All category sections, in storage order.
pub open spec fn html_categories(cats: Seq<CategoryModel>) -> Seq<char>
    decreases cats.len(),
{
    if cats.len() == 0 {
        Seq::empty()
    } else {
        html_categories(cats.drop_last()) + html_category(cats.last())
    }
}

/// Everything before the category sections: head, timestamp line, and
/// the four summary cards.
pub open spec fn html_prefix(m: ResultsModel) -> Seq<char> {
    html_head() + "Generated: "@ + m.timestamp + "</div>\n    </div>\n"@
        + "    <div class=\"summary\">\n"@ + html_summary_card(
        "optimal"@,
        "Optimal"@,
        count_status_spec(m.categories, CheckStatus::Optimal),
    ) + html_summary_card(
        "warning"@,
        "Warnings"@,
        count_status_spec(m.categories, CheckStatus::Warning),
    ) + html_summary_card("issue"@, "Issues"@, count_status_spec(m.categories, CheckStatus::Issue))
        + html_summary_card("info"@, "Info"@, count_status_spec(m.categories, CheckStatus::Info))
        + "    </div>\n\n"@
}

/// The complete HTML document.
pub open spec fn render_html_spec(m: ResultsModel) -> Seq<char> {
    html_prefix(m) + html_categories(m.categories) + "</body>\n</html>"@
}

/// One more check appends exactly one row.
pub proof fn lemma_html_checks_take(checks: Seq<CheckModel>, j: int)
    requires
        0 <= j < checks.len(),
    ensures
        html_checks(checks.take(j + 1)) == html_checks(checks.take(j)) + html_check(checks[j]),
{
    assert(checks.take(j + 1).drop_last() =~= checks.take(j));
    assert(checks.take(j + 1).last() == checks[j]);
}

/// One more category appends exactly its section.
pub proof fn lemma_html_categories_take(cats: Seq<CategoryModel>, i: int)
    requires
        0 <= i < cats.len(),
    ensures
        html_categories(cats.take(i + 1)) == html_categories(cats.take(i)) + html_category(
            cats[i],
        ),
{
    assert(cats.take(i + 1).drop_last() =~= cats.take(i));
    assert(cats.take(i + 1).last() == cats[i]);
}

/// Appends one summary card.
fn append_summary_card(out: &mut String, class: &str, label: &str, count: usize)
    ensures
        final(out)@ == old(out)@ + html_summary_card(class@, label@, count as nat),
{
    out.append("        <div class=\"summary-card ");
    out.append(class);
    out.append("\"><h2>");
    let d = usize_to_dec(count);
    out.append(d.as_str());
    out.append("</h2><p>");
    out.append(label);
    out.append("</p></div>\n");
    proof {
        assert(out@ =~= old(out)@ + html_summary_card(class@, label@, count as nat));
    }
}

/// Appends one check row.
fn append_html_check(out: &mut String, c: &Check)
    ensures
        final(out)@ == old(out)@ + html_check(c@),
{
    out.append("        <div class=\"check\">\n            <div class=\"check-icon ");
    out.append(status_class_str(c.status));
    out.append("\">");
    out.append(status_icon_str(c.status));
    out.append("</div>\n            <div class=\"check-name\">");
    let en = esc(c.name.as_str());
    out.append(en.as_str());
    out.append("</div>\n            <div class=\"check-value\">");
    let ev = esc(c.value.as_str());
    out.append(ev.as_str());
    out.append("</div>\n");
    if !c.description.as_str().is_empty() {
        out.append("            <div class=\"check-description\">");
        let ed = esc(c.description.as_str());
        out.append(ed.as_str());
        out.append("</div>\n");
    }
    out.append("        </div>\n");
    proof {
        assert(out@ =~= old(out)@ + html_check(c@));
    }
}

/// The complete HTML document for a result store: the fixed head, the
/// run timestamp, four status-count summary cards, then one section per
/// category with one escaped row per check.
pub fn render_html(results: &AuditResults) -> (r: String)
    requires
        total_checks_spec(results@.categories) <= usize::MAX,
    ensures
        r@ == render_html_spec(results@),
{
    let ghost m = results@;
    let mut out = String::from_str(r#"<!DOCTYPE html>
<html>
<head>
    <meta charset="UTF-8">
    <title>Windows Optimizer Report</title>
    <style>
        body {
            font-family: 'Segoe UI', Tahoma, Geneva, Verdana, sans-serif;
            margin: 0;
            padding: 20px;
            background: #1e1e1e;
            color: #d4d4d4;
        }
        .header {
            background: linear-gradient(135deg, #667eea 0%, #764ba2 100%);
            padding: 30px;
            border-radius: 10px;
            margin-bottom: 30px;
            text-align: center;
        }
        h1 { margin: 0; color: white; }
        .timestamp { color: rgba(255,255,255,0.8); margin-top: 10px; }
        .summary {
            display: grid;
            grid-template-columns: repeat(auto-fit, minmax(200px, 1fr));
            gap: 20px;
            margin-bottom: 30px;
        }
        .summary-card {
            background: #2d2d30;
            padding: 20px;
            border-radius: 8px;
            border-left: 4px solid;
        }
        .optimal { border-color: #4ec9b0; }
        .warning { border-color: #ce9178; }
        .issue { border-color: #f48771; }
        .info { border-color: #4fc1ff; }
        .category {
            background: #2d2d30;
            margin-bottom: 20px;
            border-radius: 8px;
            overflow: hidden;
        }
        .category-header {
            background: #37373d;
            padding: 15px;
            font-weight: bold;
            font-size: 1.2em;
        }
        .check {
            padding: 12px 15px;
            border-bottom: 1px solid #3e3e42;
            display: grid;
            grid-template-columns: 30px 1fr 1fr;
            gap: 15px;
            align-items: center;
        }
        .check:last-child { border-bottom: none; }
        .check-icon { font-size: 1.2em; }
        .check-name { font-weight: 500; }
        .check-value { color: #9cdcfe; }
        .check-description { 
            grid-column: 2 / -1; 
            font-size: 0.9em; 
            color: #858585;
            margin-top: 5px;
        }
    </style>
</head>
<body>
    <div class="header">
        <h1>🚀 Windows Optimizer Report</h1>
        <div class="timestamp">"#);
    out.append("Generated: ");
    out.append(results.timestamp().as_str());
    out.append("</div>\n    </div>\n");
    out.append("    <div class=\"summary\">\n");
    let c_optimal = results.count_status(CheckStatus::Optimal);
    append_summary_card(&mut out, "optimal", "Optimal", c_optimal);
    let c_warning = results.count_status(CheckStatus::Warning);
    append_summary_card(&mut out, "warning", "Warnings", c_warning);
    let c_issue = results.count_status(CheckStatus::Issue);
    append_summary_card(&mut out, "issue", "Issues", c_issue);
    let c_info = results.count_status(CheckStatus::Info);
    append_summary_card(&mut out, "info", "Info", c_info);
    out.append("    </div>\n\n");
    proof {
        assert(out@ =~= html_prefix(m));
    }
    let cats = results.categories();
    let n = cats.len();
    let mut i: usize = 0;
    while i < n
        invariant
            0 <= i <= n,
            n == cats.len(),
            cats@.map_values(|c: CategoryResults| c@) == m.categories,
            out@ == html_prefix(m) + html_categories(m.categories.take(i as int)),
        decreases n - i,
    {
        proof {
            assert(m.categories[i as int] == cats@[i as int]@);
        }
        let cat = &cats[i];
        out.append("    <div class=\"category\">\n        <div class=\"category-header\">");
        let ecn = esc(cat.name.as_str());
        out.append(ecn.as_str());
        out.append("</div>\n");
        let ghost sec_start = out@;
        let clen = cat.checks.len();
        let mut j: usize = 0;
        while j < clen
            invariant
                0 <= j <= clen,
                0 <= i < n,
                n == cats.len(),
                clen == cat.checks.len(),
                cat == &cats[i as int],
                out@ == sec_start + html_checks(cat@.checks.take(j as int)),
            decreases clen - j,
        {
            proof {
                lemma_html_checks_take(cat@.checks, j as int);
                assert(cat@.checks[j as int] == cat.checks@[j as int]@);
            }
            append_html_check(&mut out, &cat.checks[j]);
            proof {
                assert(out@ =~= sec_start + html_checks(cat@.checks.take(j + 1)));
            }
            j = j + 1;
        }
        out.append("    </div>\n");
        proof {
            assert(cat@.checks.take(clen as int) =~= cat@.checks);
            lemma_html_categories_take(m.categories, i as int);
            assert(out@ =~= html_prefix(m) + html_categories(m.categories.take(i + 1)));
        }
        i = i + 1;
    }
    out.append("</body>\n</html>");
    proof {
        assert(m.categories.take(n as int) =~= m.categories);
        assert(out@ =~= render_html_spec(m));
    }
    out
}

/// The hexadecimal digit character for a value below sixteen.
pub open spec fn hex_digit(d: nat) -> char {
    if d < 10 {
        dec_digit(d)
    } else if d == 10 {
        'a'
    } else if d == 11 {
        'b'
    } else if d == 12 {
        'c'
    } else if d == 13 {
        'd'
    } else if d == 14 {
        'e'
    } else {
        'f'
    }
}

fn hex_digit_exec(d: u32) -> (c: char)
    requires
        d < 16,
    ensures
        c == hex_digit(d as nat),
{
    match d {
        0 => '0',
        1 => '1',
        2 => '2',
        3 => '3',
        4 => '4',
        5 => '5',
        6 => '6',
        7 => '7',
        8 => '8',
        9 => '9',
        10 => 'a',
        11 => 'b',
        12 => 'c',
        13 => 'd',
        14 => 'e',
        _ => 'f',
    }
}

/// The JSON string-encoding expansion of one character: quote and
/// backslash escaped, the named control escapes, a numeric escape for
/// the remaining control characters, everything else kept.
pub open spec fn esc_json_char(c: char) -> Seq<char> {
    if c == '"' {
        "\\\""@
    } else if c == '\\' {
        "\\\\"@
    } else if c == '\n' {
        "\\n"@
    } else if c == '\r' {
        "\\r"@
    } else if c == '\t' {
        "\\t"@
    } else if c == '\u{8}' {
        "\\b"@
    } else if c == '\u{c}' {
        "\\f"@
    } else if (c as u32) < 32 {
        "\\u00"@ + seq![
            hex_digit(((c as u32) / 16) as nat),
            hex_digit(((c as u32) % 16) as nat),
        ]
    } else {
        seq![c]
    }
}

pub open spec fn esc_json_char_fn() -> spec_fn(char) -> Seq<char> {
    |c: char| esc_json_char(c)
}

/// The JSON-encoded form of a text, without the surrounding quotes.
pub open spec fn esc_json_spec(s: Seq<char>) -> Seq<char> {
    char_expansion(s, esc_json_char_fn())
}

/// JSON-encodes the characters of a string body.
pub fn esc_json(s: &str) -> (r: String)
    ensures
        r@ == esc_json_spec(s@),
{
    let n = s.unicode_len();
    let mut out = String::new();
    let mut i: usize = 0;
    while i < n
        invariant
            0 <= i <= n,
            n == s@.len(),
            out@ == char_expansion(s@.take(i as int), esc_json_char_fn()),
        decreases n - i,
    {
        proof {
            lemma_char_expansion_take(s@, esc_json_char_fn(), i as int);
        }
        let c = s.get_char(i);
        if c == '"' {
            out.append("\\\"");
        } else if c == '\\' {
            out.append("\\\\");
        } else if c == '\n' {
            out.append("\\n");
        } else if c == '\r' {
            out.append("\\r");
        } else if c == '\t' {
            out.append("\\t");
        } else if c == '\u{8}' {
            out.append("\\b");
        } else if c == '\u{c}' {
            out.append("\\f");
        } else if (c as u32) < 32 {
            let code = c as u32;
            out.append("\\u00");
            push_char(&mut out, hex_digit_exec(code / 16));
            push_char(&mut out, hex_digit_exec(code % 16));
            proof {
                assert(out@ =~= char_expansion(s@.take(i as int), esc_json_char_fn())
                    + esc_json_char(s@[i as int]));
            }
        } else {
            push_char(&mut out, c);
        }
        i = i + 1;
    }
    proof {
        assert(s@.take(n as int) =~= s@);
    }
    out
}

/// A quoted JSON string.
pub open spec fn json_string(s: Seq<char>) -> Seq<char> {
    seq!['"'] + esc_json_spec(s) + seq!['"']
}

/// A quoted JSON string, or `null` for an absent value.
pub open spec fn json_opt_string(o: Option<Seq<char>>) -> Seq<char> {
    match o {
        Option::None => "null"@,
        Option::Some(s) => json_string(s),
    }
}

/// One check as a pretty-printed JSON object, fields in record order.
pub open spec fn json_check(c: CheckModel) -> Seq<char> {
    "{\n          \"name\": "@ + json_string(c.name) + ",\n          \"value\": "@ + json_string(
        c.value,
    ) + ",\n          \"expected\": "@ + json_opt_string(c.expected)
        + ",\n          \"status\": "@ + json_string(status_name(c.status))
        + ",\n          \"description\": "@ + json_string(c.description)
        + ",\n          \"severity\": "@ + dec_str(c.severity as nat)
        + ",\n          \"fix_cmd\": "@ + json_opt_string(c.fix_cmd) + "\n        }"@
}

/// The comma-separated, indented elements of a check array.
pub open spec fn json_check_items(checks: Seq<CheckModel>) -> Seq<char>
    decreases checks.len(),
{
    if checks.len() == 0 {
        Seq::empty()
    } else if checks.len() == 1 {
        "        "@ + json_check(checks[0])
    } else {
        json_check_items(checks.drop_last()) + ",\n        "@ + json_check(checks.last())
    }
}

/// A check array: empty brackets, or elements over indented lines.
pub open spec fn json_checks_array(checks: Seq<CheckModel>) -> Seq<char> {
    if checks.len() == 0 {
        "[]"@
    } else {
        "[\n"@ + json_check_items(checks) + "\n      ]"@
    }
}

/// One category as a pretty-printed JSON object.
pub open spec fn json_category(cat: CategoryModel) -> Seq<char> {
    "{\n      \"name\": "@ + json_string(cat.name) + ",\n      \"checks\": "@ + json_checks_array(
        cat.checks,
    ) + "\n    }"@
}

/// One member of the category map: the name as key, the object as value.
pub open spec fn json_category_entry(cat: CategoryModel) -> Seq<char> {
    "    "@ + json_string(cat.name) + ": "@ + json_category(cat)
}

/// The comma-separated members of the category map.
pub open spec fn json_category_items(cats: Seq<CategoryModel>) -> Seq<char>
    decreases cats.len(),
{
    if cats.len() == 0 {
        Seq::empty()
    } else if cats.len() == 1 {
        json_category_entry(cats[0])
    } else {
        json_category_items(cats.drop_last()) + ",\n"@ + json_category_entry(cats.last())
    }
}

/// The category map: empty braces, or members over indented lines.
pub open spec fn json_categories_obj(cats: Seq<CategoryModel>) -> Seq<char> {
    if cats.len() == 0 {
        "{}"@
    } else {
        "{\n"@ + json_category_items(cats) + "\n  }"@
    }
}

/// The complete JSON document: the category map, then the timestamp.
pub open spec fn render_json_spec(m: ResultsModel) -> Seq<char> {
    "{\n  \"categories\": "@ + json_categories_obj(m.categories) + ",\n  \"timestamp\": "@
        + json_string(m.timestamp) + "\n}"@
}

/// One more check array element, with its separator or indentation.
pub proof fn lemma_json_check_items_take(checks: Seq<CheckModel>, j: int)
    requires
        0 <= j < checks.len(),
    ensures
        j == 0 ==> json_check_items(checks.take(1)) == "        "@ + json_check(checks[0]),
        j > 0 ==> json_check_items(checks.take(j + 1)) == json_check_items(checks.take(j))
            + ",\n        "@ + json_check(checks[j]),
{
    if j == 0 {
        assert(checks.take(1).len() == 1);
        assert(checks.take(1)[0] == checks[0]);
    } else {
        assert(checks.take(j + 1).drop_last() =~= checks.take(j));
        assert(checks.take(j + 1).last() == checks[j]);
    }
}

/// One more category map member, with its separator.
pub proof fn lemma_json_category_items_take(cats: Seq<CategoryModel>, i: int)
    requires
        0 <= i < cats.len(),
    ensures
        i == 0 ==> json_category_items(cats.take(1)) == json_category_entry(cats[0]),
        i > 0 ==> json_category_items(cats.take(i + 1)) == json_category_items(cats.take(i))
            + ",\n"@ + json_category_entry(cats[i]),
{
    if i == 0 {
        assert(cats.take(1).len() == 1);
        assert(cats.take(1)[0] == cats[0]);
    } else {
        assert(cats.take(i + 1).drop_last() =~= cats.take(i));
        assert(cats.take(i + 1).last() == cats[i]);
    }
}

/// Appends a quoted JSON string.
fn append_json_string(out: &mut String, s: &str)
    ensures
        final(out)@ == old(out)@ + json_string(s@),
{
    push_char(out, '"');
    let e = esc_json(s);
    out.append(e.as_str());
    push_char(out, '"');
    proof {
        assert(out@ =~= old(out)@ + json_string(s@));
    }
}

/// Appends a quoted JSON string or `null`.
fn append_json_opt_string(out: &mut String, o: &Option<String>)
    ensures
        final(out)@ == old(out)@ + json_opt_string(
            match *o {
                Option::Some(ref s) => Option::Some(s@),
                Option::None => Option::None,
            },
        ),
{
    match o {
        Some(s) => append_json_string(out, s.as_str()),
        None => out.append("null"),
    }
}

/// Appends one check object.
#[verifier::rlimit(100)]
fn append_json_check(out: &mut String, c: &Check)
    ensures
        final(out)@ == old(out)@ + json_check(c@),
{
    out.append("{\n          \"name\": ");
    append_json_string(out, c.name.as_str());
    out.append(",\n          \"value\": ");
    append_json_string(out, c.value.as_str());
    out.append(",\n          \"expected\": ");
    append_json_opt_string(out, &c.expected);
    out.append(",\n          \"status\": ");
    append_json_string(out, status_name_str(c.status));
    out.append(",\n          \"description\": ");
    append_json_string(out, c.description.as_str());
    out.append(",\n          \"severity\": ");
    let sev = crate::strutil::u64_to_dec(c.severity as u64);
    out.append(sev.as_str());
    out.append(",\n          \"fix_cmd\": ");
    append_json_opt_string(out, &c.fix_cmd);
    out.append("\n        }");
    proof {
        assert(out@ =~= old(out)@ + json_check(c@));
    }
}

/// Appends one category map member.
#[verifier::rlimit(50)]
fn append_json_category_entry(out: &mut String, cat: &CategoryResults)
    ensures
        final(out)@ == old(out)@ + json_category_entry(cat@),
{
    let ghost m = cat@;
    out.append("    ");
    append_json_string(out, cat.name.as_str());
    out.append(": ");
    out.append("{\n      \"name\": ");
    append_json_string(out, cat.name.as_str());
    out.append(",\n      \"checks\": ");
    let clen = cat.checks.len();
    if clen == 0 {
        out.append("[]");
    } else {
        out.append("[\n");
        let ghost arr_start = out@;
        let mut j: usize = 0;
        while j < clen
            invariant
                0 <= j <= clen,
                clen == cat.checks.len(),
                m == cat@,
                out@ == arr_start + json_check_items(m.checks.take(j as int)),
            decreases clen - j,
        {
            proof {
                lemma_json_check_items_take(m.checks, j as int);
                assert(m.checks[j as int] == cat.checks@[j as int]@);
            }
            if j == 0 {
                out.append("        ");
            } else {
                out.append(",\n        ");
            }
            append_json_check(out, &cat.checks[j]);
            proof {
                assert(out@ =~= arr_start + json_check_items(m.checks.take(j + 1)));
            }
            j = j + 1;
        }
        out.append("\n      ]");
        proof {
            assert(m.checks.take(clen as int) =~= m.checks);
        }
    }
    out.append("\n    }");
    proof {
        assert(out@ =~= old(out)@ + json_category_entry(m));
    }
}

/// The complete JSON document for a result store: a structural dump of
/// the category map and timestamp, pretty-printed, with standard JSON
/// string encoding and nothing else applied to the text fields.
pub fn render_json(results: &AuditResults) -> (r: String)
    ensures
        r@ == render_json_spec(results@),
{
    let ghost m = results@;
    let mut out = String::from_str("{\n  \"categories\": ");
    let cats = results.categories();
    let n = cats.len();
    if n == 0 {
        out.append("{}");
        proof {
            assert(m.categories.len() == 0);
        }
    } else {
        out.append("{\n");
        let ghost obj_start = out@;
        let mut i: usize = 0;
        while i < n
            invariant
                0 <= i <= n,
                n == cats.len(),
                cats@.map_values(|c: CategoryResults| c@) == m.categories,
                out@ == obj_start + json_category_items(m.categories.take(i as int)),
            decreases n - i,
        {
            proof {
                lemma_json_category_items_take(m.categories, i as int);
                assert(m.categories[i as int] == cats@[i as int]@);
            }
            if i > 0 {
                out.append(",\n");
            }
            append_json_category_entry(&mut out, &cats[i]);
            proof {
                assert(out@ =~= obj_start + json_category_items(m.categories.take(i + 1)));
            }
            i = i + 1;
        }
        out.append("\n  }");
        proof {
            assert(m.categories.take(n as int) =~= m.categories);
        }
    }
    out.append(",\n  \"timestamp\": ");
    append_json_string(&mut out, results.timestamp().as_str());
    out.append("\n}");
    proof {
        assert(out@ =~= render_json_spec(m));
    }
    out
}

} // verus!
