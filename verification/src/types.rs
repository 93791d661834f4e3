//! The data model: check statuses, single check records, per-category
//! results, and the aggregate result store of one audit run.

use crate::strutil::str_eq;
use vstd::prelude::*;

verus! {

/// The catalog's fixed set of categories.
#[derive(Debug, Clone, Copy, PartialEq, Eq, Structural)]
pub enum Category {
    Latency,
    Cpu,
    Gpu,
    Memory,
    Storage,
    Network,
    Audio,
    Input,
    Stability,
    Services,
    Security,
    Platform,
    Thermal,
    Power,
}

/// The lower-case key under which a category is requested.
pub open spec fn category_key(c: Category) -> Seq<char> {
    match c {
        Category::Latency => "latency"@,
        Category::Cpu => "cpu"@,
        Category::Gpu => "gpu"@,
        Category::Memory => "memory"@,
        Category::Storage => "storage"@,
        Category::Network => "network"@,
        Category::Audio => "audio"@,
        Category::Input => "input"@,
        Category::Stability => "stability"@,
        Category::Services => "services"@,
        Category::Security => "security"@,
        Category::Platform => "platform"@,
        Category::Thermal => "thermal"@,
        Category::Power => "power"@,
    }
}

/// The human-readable name under which a category's results are stored.
pub open spec fn category_display_name(c: Category) -> Seq<char> {
    match c {
        Category::Latency => "Latency"@,
        Category::Cpu => "CPU"@,
        Category::Gpu => "GPU"@,
        Category::Memory => "Memory"@,
        Category::Storage => "Storage"@,
        Category::Network => "Network"@,
        Category::Audio => "Audio"@,
        Category::Input => "Input"@,
        Category::Stability => "Stability"@,
        Category::Services => "Services"@,
        Category::Security => "Security"@,
        Category::Platform => "Platform"@,
        Category::Thermal => "Thermal"@,
        Category::Power => "Power"@,
    }
}

impl Category {
    /// The lower-case request key of this category.
    pub fn as_str(&self) -> (r: &'static str)
        ensures
            r@ == category_key(*self),
    {
        match self {
            Category::Latency => "latency",
            Category::Cpu => "cpu",
            Category::Gpu => "gpu",
            Category::Memory => "memory",
            Category::Storage => "storage",
            Category::Network => "network",
            Category::Audio => "audio",
            Category::Input => "input",
            Category::Stability => "stability",
            Category::Services => "services",
            Category::Security => "security",
            Category::Platform => "platform",
            Category::Thermal => "thermal",
            Category::Power => "power",
        }
    }

    /// The display name of this category.
    pub fn display_name(&self) -> (r: &'static str)
        ensures
            r@ == category_display_name(*self),
    {
        match self {
            Category::Latency => "Latency",
            Category::Cpu => "CPU",
            Category::Gpu => "GPU",
            Category::Memory => "Memory",
            Category::Storage => "Storage",
            Category::Network => "Network",
            Category::Audio => "Audio",
            Category::Input => "Input",
            Category::Stability => "Stability",
            Category::Services => "Services",
            Category::Security => "Security",
            Category::Platform => "Platform",
            Category::Thermal => "Thermal",
            Category::Power => "Power",
        }
    }
}

/// A failure surfaced by a probe or an export step. The payload carries
/// the offending detail as plain text.
#[derive(Debug, Clone, PartialEq)]
pub enum CheckError {
    Registry(String),
    Wmi(String),
    Privilege(String),
    Timeout,
    Io(String),
}

impl CheckError {
    /// A human-readable rendering of the error.
    pub fn message(&self) -> (m: String)
        ensures
            m@ == spec_check_error_message(*self),
    {
        match self {
            CheckError::Registry(s) => String::from_str("Registry: ").concat(s.as_str()),
            CheckError::Wmi(s) => String::from_str("WMI: ").concat(s.as_str()),
            CheckError::Privilege(s) => String::from_str("Privilege: ").concat(s.as_str()),
            CheckError::Timeout => String::from_str("Timeout"),
            CheckError::Io(s) => String::from_str("IO: ").concat(s.as_str()),
        }
    }
}

/// What [`CheckError::message`] returns for each variant.
pub open spec fn spec_check_error_message(e: CheckError) -> Seq<char> {
    match e {
        CheckError::Registry(s) => "Registry: "@ + s@,
        CheckError::Wmi(s) => "WMI: "@ + s@,
        CheckError::Privilege(s) => "Privilege: "@ + s@,
        CheckError::Timeout => "Timeout"@,
        CheckError::Io(s) => "IO: "@ + s@,
    }
}

/// Classification of one check's outcome. A closed set, used for
/// filtering, counting, and display; not a ranking.
#[derive(Debug, Clone, Copy, PartialEq, Eq, Structural)]
pub enum CheckStatus {
    Optimal,
    Warning,
    Issue,
    Info,
}

/// Mathematical model of a [`Check`]: every string field as a sequence
/// of characters.
pub ghost struct CheckModel {
    pub name: Seq<char>,
    pub value: Seq<char>,
    pub expected: Option<Seq<char>>,
    pub status: CheckStatus,
    pub description: Seq<char>,
    pub severity: u8,
    pub fix_cmd: Option<Seq<char>>,
}

/// One named observation of system configuration: a free-text value, a
/// status classification, and an optional explanation. Immutable once
/// produced by an evaluator.
#[derive(Debug, Clone, PartialEq)]
pub struct Check {
    pub name: String,
    pub value: String,
    pub expected: Option<String>,
    pub status: CheckStatus,
    pub description: String,
    pub severity: u8,
    pub fix_cmd: Option<String>,
}

impl View for Check {
    type V = CheckModel;

    open spec fn view(&self) -> CheckModel {
        CheckModel {
            name: self.name@,
            value: self.value@,
            expected: match self.expected {
                Some(ref s) => Some(s@),
                None => None,
            },
            status: self.status,
            description: self.description@,
            severity: self.severity,
            fix_cmd: match self.fix_cmd {
                Some(ref s) => Some(s@),
                None => None,
            },
        }
    }
}

/// The model of a check fresh out of [`Check::new`]: empty description,
/// default severity, no expected value and no fix command.
pub open spec fn check_model(name: Seq<char>, value: Seq<char>, status: CheckStatus) -> CheckModel {
    CheckModel {
        name: name,
        value: value,
        expected: None,
        status: status,
        description: Seq::<char>::empty(),
        severity: 5,
        fix_cmd: None,
    }
}

/// The model of a check built by `Check::new(..).with_description(..)`,
/// the shape every catalog evaluator produces.
pub open spec fn described_check_model(
    name: Seq<char>,
    value: Seq<char>,
    status: CheckStatus,
    description: Seq<char>,
) -> CheckModel {
    CheckModel {
        name: name,
        value: value,
        expected: None,
        status: status,
        description: description,
        severity: 5,
        fix_cmd: None,
    }
}

impl Check {
    /// A fresh check: the given name, value and status, an empty
    /// description, severity 5, no expected value, no fix command.
    pub fn new(name: &str, value: &str, status: CheckStatus) -> (c: Check)
        ensures
            c@ == check_model(name@, value@, status),
    {
        Check {
            name: String::from_str(name),
            value: String::from_str(value),
            expected: None,
            status: status,
            description: String::new(),
            severity: 5,
            fix_cmd: None,
        }
    }

    /// The same check with its description replaced.
    pub fn with_description(self, desc: &str) -> (c: Check)
        ensures
            c@ == (CheckModel { description: desc@, ..self@ }),
    {
        Check { description: String::from_str(desc), ..self }
    }

    /// The same check with an expected value recorded.
    pub fn with_expected(self, expected: &str) -> (c: Check)
        ensures
            c@ == (CheckModel { expected: Some(expected@), ..self@ }),
    {
        Check { expected: Some(String::from_str(expected)), ..self }
    }

    /// The same check with the severity replaced, capped at 10.
    pub fn with_severity(self, severity: u8) -> (c: Check)
        ensures
            c@ == (CheckModel {
                severity: if severity > 10 { 10u8 } else { severity },
                ..self@
            }),
    {
        let capped: u8 = if severity > 10 {
            10
        } else {
            severity
        };
        Check { severity: capped, ..self }
    }

    /// The same check with a fix command recorded.
    pub fn with_fix_cmd(self, cmd: &str) -> (c: Check)
        ensures
            c@ == (CheckModel { fix_cmd: Some(cmd@), ..self@ }),
    {
        Check { fix_cmd: Some(String::from_str(cmd)), ..self }
    }
}

/// Mathematical model of a [`CategoryResults`].
pub ghost struct CategoryModel {
    pub name: Seq<char>,
    pub checks: Seq<CheckModel>,
}

/// A named group of checks. The order of `checks` is the evaluator's
/// declared order and is never re-sorted.
#[derive(Debug, Clone, PartialEq)]
pub struct CategoryResults {
    pub name: String,
    pub checks: Vec<Check>,
}

impl View for CategoryResults {
    type V = CategoryModel;

    open spec fn view(&self) -> CategoryModel {
        CategoryModel { name: self.name@, checks: self.checks@.map_values(|c: Check| c@) }
    }
}

impl CategoryResults {
    /// An empty result set for the given category name.
    pub fn new(name: &str) -> (r: CategoryResults)
        ensures
            r@.name == name@,
            r@.checks == Seq::<CheckModel>::empty(),
    {
        let r = CategoryResults { name: String::from_str(name), checks: Vec::new() };
        proof {
            assert(r@.checks =~= Seq::<CheckModel>::empty());
        }
        r
    }

    /// Appends one check at the end, keeping all earlier checks in place.
    pub fn add_check(&mut self, check: Check)
        ensures
            final(self)@.name == old(self)@.name,
            final(self)@.checks == old(self)@.checks.push(check@),
    {
        self.checks.push(check);
        proof {
            assert(self@.checks =~= old(self)@.checks.push(check@));
        }
    }
}

/// Mathematical model of an [`AuditResults`].
pub ghost struct ResultsModel {
    pub categories: Seq<CategoryModel>,
    pub timestamp: Seq<char>,
}

/// Index of the first category with the given name, or -1 if none has it.
pub open spec fn index_of_name(cats: Seq<CategoryModel>, name: Seq<char>) -> int
    decreases cats.len(),
{
    if cats.len() == 0 {
        -1
    } else if cats[0].name == name {
        0
    } else {
        let rest = index_of_name(cats.drop_first(), name);
        if rest < 0 {
            -1
        } else {
            rest + 1
        }
    }
}

/// What the first category stored under `name` holds, if any.
pub open spec fn lookup_category(cats: Seq<CategoryModel>, name: Seq<char>) -> Option<
    CategoryModel,
> {
    let i = index_of_name(cats, name);
    if i >= 0 {
        Some(cats[i])
    } else {
        None
    }
}

/// The store after inserting `c`: the first category of the same name is
/// overwritten in place, otherwise `c` is appended.
pub open spec fn insert_category(cats: Seq<CategoryModel>, c: CategoryModel) -> Seq<
    CategoryModel,
> {
    let i = index_of_name(cats, c.name);
    if i >= 0 {
        cats.update(i, c)
    } else {
        cats.push(c)
    }
}

/// Sum of the check-list lengths over all stored categories.
pub open spec fn total_checks_spec(cats: Seq<CategoryModel>) -> nat
    decreases cats.len(),
{
    if cats.len() == 0 {
        0
    } else {
        total_checks_spec(cats.drop_last()) + cats.last().checks.len()
    }
}

/// Number of checks with the given status in one check list.
pub open spec fn count_status_in_checks(checks: Seq<CheckModel>, status: CheckStatus) -> nat
    decreases checks.len(),
{
    if checks.len() == 0 {
        0nat
    } else {
        count_status_in_checks(checks.drop_last(), status) + (if checks.last().status == status {
            1nat
        } else {
            0nat
        })
    }
}

/// Number of checks with the given status across all stored categories.
pub open spec fn count_status_spec(cats: Seq<CategoryModel>, status: CheckStatus) -> nat
    decreases cats.len(),
{
    if cats.len() == 0 {
        0
    } else {
        count_status_spec(cats.drop_last(), status) + count_status_in_checks(
            cats.last().checks,
            status,
        )
    }
}

/// Category names are unique keys within the store.
pub open spec fn results_wf(m: ResultsModel) -> bool {
    forall|i: int, j: int|
        0 <= i < j < m.categories.len() ==> m.categories[i].name != m.categories[j].name
}

/// `index_of_name` finds the least index holding `name`, and -1 exactly
/// when no category holds it.
pub proof fn lemma_index_of_name(cats: Seq<CategoryModel>, name: Seq<char>)
    ensures
        index_of_name(cats, name) >= 0 ==> {
            &&& index_of_name(cats, name) < cats.len()
            &&& cats[index_of_name(cats, name)].name == name
            &&& forall|j: int| 0 <= j < index_of_name(cats, name) ==> cats[j].name != name
        },
        index_of_name(cats, name) < 0 ==> {
            &&& index_of_name(cats, name) == -1
            &&& forall|j: int| 0 <= j < cats.len() ==> cats[j].name != name
        },
    decreases cats.len(),
{
    if cats.len() > 0 && cats[0].name != name {
        lemma_index_of_name(cats.drop_first(), name);
        assert(forall|j: int|
            1 <= j < cats.len() ==> cats[j] == cats.drop_first()[j - 1]);
    }
}

/// The aggregate of one audit run: category results keyed by name (unique
/// keys, last write wins) and the run's start timestamp. All mutation
/// happens in a single merge step; afterwards the store is only read.
#[derive(Debug)]
pub struct AuditResults {
    categories: Vec<CategoryResults>,
    timestamp: String,
}

impl View for AuditResults {
    type V = ResultsModel;

    closed spec fn view(&self) -> ResultsModel {
        ResultsModel {
            categories: self.categories@.map_values(|c: CategoryResults| c@),
            timestamp: self.timestamp@,
        }
    }
}

/// Relies on `chrono::Local::now` and `chrono::DateTime::to_rfc3339` for
/// the run timestamp. The result depends on the clock and the local time
/// zone, so nothing is claimed about it.
#[verifier::external_body]
fn now_rfc3339() -> String {
    chrono::Local::now().to_rfc3339()
}

impl AuditResults {
    /// An empty store stamped with the current local time.
    pub fn new() -> (r: AuditResults)
        ensures
            r@.categories == Seq::<CategoryModel>::empty(),
            results_wf(r@),
    {
        let r = AuditResults { categories: Vec::new(), timestamp: now_rfc3339() };
        proof {
            assert(r@.categories =~= Seq::<CategoryModel>::empty());
        }
        r
    }

    /// The run timestamp captured at construction.
    pub fn timestamp(&self) -> (t: &String)
        ensures
            t@ == self@.timestamp,
    {
        &self.timestamp
    }

    /// The stored categories, in storage order.
    pub fn categories(&self) -> (cs: &Vec<CategoryResults>)
        ensures
            cs@.map_values(|c: CategoryResults| c@) == self@.categories,
    {
        &self.categories
    }

    /// Inserts a category's results under its name: an existing category
    /// of the same name is overwritten in place, last write wins.
    pub fn add_category(&mut self, category: CategoryResults)
        requires
            results_wf(old(self)@),
        ensures
            final(self)@.categories == insert_category(old(self)@.categories, category@),
            final(self)@.timestamp == old(self)@.timestamp,
            results_wf(final(self)@),
    {
        let n = self.categories.len();
        let mut i: usize = 0;
        while i < n
            invariant
                0 <= i <= n,
                self@.categories == old(self)@.categories,
                self@.timestamp == old(self)@.timestamp,
                results_wf(self@),
                n == self.categories.len(),
                forall|j: int| 0 <= j < i ==> self@.categories[j].name != category@.name,
            decreases n - i,
        {
            proof {
                assert(self@.categories[i as int] == self.categories@[i as int]@);
            }
            if str_eq(self.categories[i].name.as_str(), category.name.as_str()) {
                let ghost pre = self@.categories;
                self.categories[i] = category;
                proof {
                    assert(index_of_name(pre, category@.name) == i) by {
                        lemma_index_of_name(pre, category@.name);
                    }
                    assert(self@.categories =~= pre.update(i as int, category@));
                    assert(results_wf(self@)) by {
                        assert(forall|j: int|
                            0 <= j < self@.categories.len() ==> self@.categories[j].name
                                == pre[j].name);
                    }
                }
                return ;
            }
            i = i + 1;
        }
        let ghost pre = self@.categories;
        self.categories.push(category);
        proof {
            lemma_index_of_name(pre, category@.name);
            assert(self@.categories =~= pre.push(category@));
        }
    }

    /// The first (and, under well-formedness, only) category stored under
    /// `name`.
    pub fn get_category(&self, name: &str) -> (r: Option<&CategoryResults>)
        ensures
            match r {
                Some(c) => lookup_category(self@.categories, name@) == Some(c@),
                None => lookup_category(self@.categories, name@) is None,
            },
    {
        let n = self.categories.len();
        let mut i: usize = 0;
        while i < n
            invariant
                0 <= i <= n,
                n == self.categories.len(),
                forall|j: int| 0 <= j < i ==> self@.categories[j].name != name@,
            decreases n - i,
        {
            proof {
                assert(self@.categories[i as int] == self.categories@[i as int]@);
            }
            if str_eq(self.categories[i].name.as_str(), name) {
                proof {
                    lemma_index_of_name(self@.categories, name@);
                }
                return Some(&self.categories[i]);
            }
            i = i + 1;
        }
        proof {
            lemma_index_of_name(self@.categories, name@);
        }
        None
    }

    /// The sum of the per-category check-list lengths, computed by a full
    /// scan of the current state.
    pub fn total_checks(&self) -> (n: usize)
        requires
            total_checks_spec(self@.categories) <= usize::MAX,
        ensures
            n == total_checks_spec(self@.categories),
    {
        let len = self.categories.len();
        let mut total: usize = 0;
        let mut i: usize = 0;
        while i < len
            invariant
                0 <= i <= len,
                len == self.categories.len(),
                total_checks_spec(self@.categories) <= usize::MAX,
                total == total_checks_spec(self@.categories.take(i as int)),
            decreases len - i,
        {
            proof {
                lemma_total_checks_take_succ(self@.categories, i as int);
                lemma_total_checks_take_le(self@.categories, i + 1);
            }
            total = total + self.categories[i].checks.len();
            i = i + 1;
        }
        proof {
            assert(self@.categories.take(len as int) =~= self@.categories);
        }
        total
    }

    /// The exact number of checks with the given status across all
    /// categories, computed by a full scan of the current state.
    pub fn count_status(&self, status: CheckStatus) -> (n: usize)
        requires
            total_checks_spec(self@.categories) <= usize::MAX,
        ensures
            n == count_status_spec(self@.categories, status),
    {
        let len = self.categories.len();
        let mut count: usize = 0;
        let mut i: usize = 0;
        while i < len
            invariant
                0 <= i <= len,
                len == self.categories.len(),
                total_checks_spec(self@.categories) <= usize::MAX,
                count == count_status_spec(self@.categories.take(i as int), status),
            decreases len - i,
        {
            proof {
                lemma_count_status_take_succ(self@.categories, i as int, status);
                lemma_count_le_total(self@.categories, i + 1, status);
            }
            let cat = &self.categories[i];
            let clen = cat.checks.len();
            let mut j: usize = 0;
            let mut here: usize = 0;
            while j < clen
                invariant
                    0 <= j <= clen,
                    clen == cat.checks.len(),
                    here <= j,
                    here == count_status_in_checks(cat@.checks.take(j as int), status),
                decreases clen - j,
            {
                proof {
                    lemma_count_in_checks_take_succ(cat@.checks, j as int, status);
                }
                if status_eq(cat.checks[j].status, status) {
                    here = here + 1;
                }
                j = j + 1;
            }
            proof {
                assert(cat@.checks.take(clen as int) =~= cat@.checks);
            }
            count = count + here;
            i = i + 1;
        }
        proof {
            assert(self@.categories.take(len as int) =~= self@.categories);
        }
        count
    }
}

impl AuditResults {
    /// Whether the store's total check count fits the machine word that
    /// [`AuditResults::total_checks`] returns.
    pub fn checks_within_limit(&self) -> (b: bool)
        ensures
            b == (total_checks_spec(self@.categories) <= usize::MAX),
    {
        let len = self.categories.len();
        let mut acc: usize = 0;
        let mut i: usize = 0;
        while i < len
            invariant
                0 <= i <= len,
                len == self.categories.len(),
                acc == total_checks_spec(self@.categories.take(i as int)),
            decreases len - i,
        {
            proof {
                lemma_total_checks_take_succ(self@.categories, i as int);
            }
            let l = self.categories[i].checks.len();
            if acc > usize::MAX - l {
                proof {
                    lemma_total_checks_take_le(self@.categories, i + 1);
                }
                return false;
            }
            acc = acc + l;
            i = i + 1;
        }
        proof {
            assert(self@.categories.take(len as int) =~= self@.categories);
        }
        true
    }
}

impl Default for AuditResults {
    /// Same as [`AuditResults::new`].
    fn default() -> (r: AuditResults)
        ensures
            r@.categories == Seq::<CategoryModel>::empty(),
            results_wf(r@),
    {
        AuditResults::new()
    }
}

/// Structural equality of two statuses, usable from verified code.
pub fn status_eq(a: CheckStatus, b: CheckStatus) -> (r: bool)
    ensures
        r == (a == b),
{
    match (a, b) {
        (CheckStatus::Optimal, CheckStatus::Optimal) => true,
        (CheckStatus::Warning, CheckStatus::Warning) => true,
        (CheckStatus::Issue, CheckStatus::Issue) => true,
        (CheckStatus::Info, CheckStatus::Info) => true,
        _ => false,
    }
}

/// Taking one more category adds exactly its check count.
pub proof fn lemma_total_checks_take_succ(cats: Seq<CategoryModel>, i: int)
    requires
        0 <= i < cats.len(),
    ensures
        total_checks_spec(cats.take(i + 1)) == total_checks_spec(cats.take(i))
            + cats[i].checks.len(),
{
    assert(cats.take(i + 1).drop_last() =~= cats.take(i));
    assert(cats.take(i + 1).last() == cats[i]);
}

/// A prefix never holds more checks than the whole store.
pub proof fn lemma_total_checks_take_le(cats: Seq<CategoryModel>, i: int)
    requires
        0 <= i <= cats.len(),
    ensures
        total_checks_spec(cats.take(i)) <= total_checks_spec(cats),
    decreases cats.len() - i,
{
    if i == cats.len() {
        assert(cats.take(i) =~= cats);
    } else {
        lemma_total_checks_take_succ(cats, i);
        lemma_total_checks_take_le(cats, i + 1);
    }
}

/// Taking one more category adds exactly its per-status count.
pub proof fn lemma_count_status_take_succ(cats: Seq<CategoryModel>, i: int, status: CheckStatus)
    requires
        0 <= i < cats.len(),
    ensures
        count_status_spec(cats.take(i + 1), status) == count_status_spec(cats.take(i), status)
            + count_status_in_checks(cats[i].checks, status),
{
    assert(cats.take(i + 1).drop_last() =~= cats.take(i));
    assert(cats.take(i + 1).last() == cats[i]);
}

/// Taking one more check adds one exactly when its status matches.
pub proof fn lemma_count_in_checks_take_succ(checks: Seq<CheckModel>, j: int, status: CheckStatus)
    requires
        0 <= j < checks.len(),
    ensures
        count_status_in_checks(checks.take(j + 1), status) == count_status_in_checks(
            checks.take(j),
            status,
        ) + (if checks[j].status == status {
            1nat
        } else {
            0nat
        }),
{
    assert(checks.take(j + 1).drop_last() =~= checks.take(j));
    assert(checks.take(j + 1).last() == checks[j]);
}

/// In one check list, the per-status count never exceeds the length.
pub proof fn lemma_count_in_checks_le_len(checks: Seq<CheckModel>, status: CheckStatus)
    ensures
        count_status_in_checks(checks, status) <= checks.len(),
    decreases checks.len(),
{
    if checks.len() > 0 {
        lemma_count_in_checks_le_len(checks.drop_last(), status);
    }
}

/// Across a prefix of the store, the per-status count never exceeds the
/// total check count of the whole store.
pub proof fn lemma_count_le_total(cats: Seq<CategoryModel>, i: int, status: CheckStatus)
    requires
        0 <= i <= cats.len(),
    ensures
        count_status_spec(cats.take(i), status) <= total_checks_spec(cats),
    decreases i,
{
    if i == 0 {
        assert(count_status_spec(cats.take(0), status) == 0);
    } else {
        lemma_count_le_total_full(cats.take(i), status);
        lemma_total_checks_take_le(cats, i);
    }
}

/// In any store, the per-status count never exceeds the total check count.
pub proof fn lemma_count_le_total_full(cats: Seq<CategoryModel>, status: CheckStatus)
    ensures
        count_status_spec(cats, status) <= total_checks_spec(cats),
    decreases cats.len(),
{
    if cats.len() > 0 {
        lemma_count_le_total_full(cats.drop_last(), status);
        lemma_count_in_checks_le_len(cats.last().checks, status);
    }
}

} // verus!
