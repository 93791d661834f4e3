//! The probe: a read-only snapshot of the machine facts the catalog can
//! ask about. A lookup either finds a recorded fact or reports absence;
//! the catalog never distinguishes why a fact is missing.

use crate::strutil::str_eq;
use vstd::prelude::*;

verus! {

/// Registry hive handle.
pub type HKEY = u32;

pub const HKEY_LOCAL_MACHINE: HKEY = 1;

pub const HKEY_CURRENT_USER: HKEY = 2;

/// A string value recorded under a registry path.
#[derive(Debug, Clone)]
pub struct RegStringFact {
    pub hive: HKEY,
    pub path: String,
    pub name: String,
    pub value: String,
}

pub ghost struct RegStringModel {
    pub hive: HKEY,
    pub path: Seq<char>,
    pub name: Seq<char>,
    pub value: Seq<char>,
}

impl View for RegStringFact {
    type V = RegStringModel;

    open spec fn view(&self) -> RegStringModel {
        RegStringModel { hive: self.hive, path: self.path@, name: self.name@, value: self.value@ }
    }
}

/// A 32-bit value recorded under a registry path.
#[derive(Debug, Clone)]
pub struct RegDwordFact {
    pub hive: HKEY,
    pub path: String,
    pub name: String,
    pub value: u32,
}

pub ghost struct RegDwordModel {
    pub hive: HKEY,
    pub path: Seq<char>,
    pub name: Seq<char>,
    pub value: u32,
}

impl View for RegDwordFact {
    type V = RegDwordModel;

    open spec fn view(&self) -> RegDwordModel {
        RegDwordModel { hive: self.hive, path: self.path@, name: self.name@, value: self.value }
    }
}

/// A string property of a management-instrumentation class.
#[derive(Debug, Clone)]
pub struct WmiStringFact {
    pub class: String,
    pub property: String,
    pub value: String,
}

pub ghost struct WmiStringModel {
    pub class: Seq<char>,
    pub property: Seq<char>,
    pub value: Seq<char>,
}

impl View for WmiStringFact {
    type V = WmiStringModel;

    open spec fn view(&self) -> WmiStringModel {
        WmiStringModel { class: self.class@, property: self.property@, value: self.value@ }
    }
}

/// A 32-bit property of a management-instrumentation class.
#[derive(Debug, Clone)]
pub struct WmiU32Fact {
    pub class: String,
    pub property: String,
    pub value: u32,
}

pub ghost struct WmiU32Model {
    pub class: Seq<char>,
    pub property: Seq<char>,
    pub value: u32,
}

impl View for WmiU32Fact {
    type V = WmiU32Model;

    open spec fn view(&self) -> WmiU32Model {
        WmiU32Model { class: self.class@, property: self.property@, value: self.value }
    }
}

/// A 64-bit property of a management-instrumentation class.
#[derive(Debug, Clone)]
pub struct WmiU64Fact {
    pub class: String,
    pub property: String,
    pub value: u64,
}

pub ghost struct WmiU64Model {
    pub class: Seq<char>,
    pub property: Seq<char>,
    pub value: u64,
}

impl View for WmiU64Fact {
    type V = WmiU64Model;

    open spec fn view(&self) -> WmiU64Model {
        WmiU64Model { class: self.class@, property: self.property@, value: self.value }
    }
}

/// How many instances of a management-instrumentation class exist.
#[derive(Debug, Clone)]
pub struct WmiCountFact {
    pub class: String,
    pub count: usize,
}

pub ghost struct WmiCountModel {
    pub class: Seq<char>,
    pub count: usize,
}

impl View for WmiCountFact {
    type V = WmiCountModel;

    open spec fn view(&self) -> WmiCountModel {
        WmiCountModel { class: self.class@, count: self.count }
    }
}

/// The reported state of a system service.
#[derive(Debug, Clone)]
pub struct ServiceFact {
    pub name: String,
    pub state: String,
}

pub ghost struct ServiceModel {
    pub name: Seq<char>,
    pub state: Seq<char>,
}

impl View for ServiceFact {
    type V = ServiceModel;

    open spec fn view(&self) -> ServiceModel {
        ServiceModel { name: self.name@, state: self.state@ }
    }
}

/// Processor facts reported in one block.
#[derive(Debug, Clone)]
pub struct CpuInfo {
    pub name: String,
    pub cores: u32,
    pub logical: u32,
    pub max_clock: u32,
    pub current_clock: u32,
    pub l2_cache: u32,
    pub l3_cache: u32,
    pub architecture: u16,
}

pub ghost struct CpuInfoModel {
    pub name: Seq<char>,
    pub cores: u32,
    pub logical: u32,
    pub max_clock: u32,
    pub current_clock: u32,
    pub l2_cache: u32,
    pub l3_cache: u32,
    pub architecture: u16,
}

impl View for CpuInfo {
    type V = CpuInfoModel;

    open spec fn view(&self) -> CpuInfoModel {
        CpuInfoModel {
            name: self.name@,
            cores: self.cores,
            logical: self.logical,
            max_clock: self.max_clock,
            current_clock: self.current_clock,
            l2_cache: self.l2_cache,
            l3_cache: self.l3_cache,
            architecture: self.architecture,
        }
    }
}

/// Mathematical model of a [`Probe`].
pub ghost struct ProbeModel {
    pub reg_strings: Seq<RegStringModel>,
    pub reg_dwords: Seq<RegDwordModel>,
    pub wmi_strings: Seq<WmiStringModel>,
    pub wmi_u32s: Seq<WmiU32Model>,
    pub wmi_u64s: Seq<WmiU64Model>,
    pub wmi_counts: Seq<WmiCountModel>,
    pub services: Seq<ServiceModel>,
    pub cpu: Option<CpuInfoModel>,
    pub gpu: Option<(Seq<char>, u64)>,
    pub paths: Seq<Seq<char>>,
}

/// One read-only snapshot of probe-visible machine state. Lookups take
/// the first recorded fact for a key; a key without a fact is absent.
#[derive(Debug, Clone)]
pub struct Probe {
    pub reg_strings: Vec<RegStringFact>,
    pub reg_dwords: Vec<RegDwordFact>,
    pub wmi_strings: Vec<WmiStringFact>,
    pub wmi_u32s: Vec<WmiU32Fact>,
    pub wmi_u64s: Vec<WmiU64Fact>,
    pub wmi_counts: Vec<WmiCountFact>,
    pub services: Vec<ServiceFact>,
    pub cpu: Option<CpuInfo>,
    pub gpu: Option<(String, u64)>,
    pub paths: Vec<String>,
}

impl View for Probe {
    type V = ProbeModel;

    open spec fn view(&self) -> ProbeModel {
        ProbeModel {
            reg_strings: self.reg_strings@.map_values(|f: RegStringFact| f@),
            reg_dwords: self.reg_dwords@.map_values(|f: RegDwordFact| f@),
            wmi_strings: self.wmi_strings@.map_values(|f: WmiStringFact| f@),
            wmi_u32s: self.wmi_u32s@.map_values(|f: WmiU32Fact| f@),
            wmi_u64s: self.wmi_u64s@.map_values(|f: WmiU64Fact| f@),
            wmi_counts: self.wmi_counts@.map_values(|f: WmiCountFact| f@),
            services: self.services@.map_values(|f: ServiceFact| f@),
            cpu: match self.cpu {
                Some(ref c) => Some(c@),
                None => None,
            },
            gpu: match self.gpu {
                Some(ref g) => Some((g.0@, g.1)),
                None => None,
            },
            paths: self.paths@.map_values(|s: String| s@),
        }
    }
}

/// A probe with every fact absent.
pub open spec fn empty_probe_model() -> ProbeModel {
    ProbeModel {
        reg_strings: Seq::empty(),
        reg_dwords: Seq::empty(),
        wmi_strings: Seq::empty(),
        wmi_u32s: Seq::empty(),
        wmi_u64s: Seq::empty(),
        wmi_counts: Seq::empty(),
        services: Seq::empty(),
        cpu: None,
        gpu: None,
        paths: Seq::empty(),
    }
}

impl Probe {
    /// A snapshot that answers every lookup with absence.
    pub fn empty() -> (p: Probe)
        ensures
            p@ == empty_probe_model(),
    {
        let p = Probe {
            reg_strings: Vec::new(),
            reg_dwords: Vec::new(),
            wmi_strings: Vec::new(),
            wmi_u32s: Vec::new(),
            wmi_u64s: Vec::new(),
            wmi_counts: Vec::new(),
            services: Vec::new(),
            cpu: None,
            gpu: None,
            paths: Vec::new(),
        };
        proof {
            assert(p@.reg_strings =~= empty_probe_model().reg_strings);
            assert(p@.reg_dwords =~= empty_probe_model().reg_dwords);
            assert(p@.wmi_strings =~= empty_probe_model().wmi_strings);
            assert(p@.wmi_u32s =~= empty_probe_model().wmi_u32s);
            assert(p@.wmi_u64s =~= empty_probe_model().wmi_u64s);
            assert(p@.wmi_counts =~= empty_probe_model().wmi_counts);
            assert(p@.services =~= empty_probe_model().services);
            assert(p@.paths =~= empty_probe_model().paths);
        }
        p
    }
}

/// Index of the first element satisfying `pred`, or -1 if none does.
pub open spec fn first_match<T>(s: Seq<T>, pred: spec_fn(T) -> bool) -> int
    decreases s.len(),
{
    if s.len() == 0 {
        -1
    } else if pred(s[0]) {
        0
    } else {
        let rest = first_match(s.drop_first(), pred);
        if rest < 0 {
            -1
        } else {
            rest + 1
        }
    }
}

/// `first_match` finds the least matching index, and -1 exactly when no
/// element matches.
pub proof fn lemma_first_match<T>(s: Seq<T>, pred: spec_fn(T) -> bool)
    ensures
        first_match(s, pred) >= 0 ==> {
            &&& first_match(s, pred) < s.len()
            &&& pred(s[first_match(s, pred)])
            &&& forall|j: int| 0 <= j < first_match(s, pred) ==> !pred(s[j])
        },
        first_match(s, pred) < 0 ==> {
            &&& first_match(s, pred) == -1
            &&& forall|j: int| 0 <= j < s.len() ==> !pred(s[j])
        },
    decreases s.len(),
{
    if s.len() > 0 && !pred(s[0]) {
        lemma_first_match(s.drop_first(), pred);
        assert(forall|j: int| 1 <= j < s.len() ==> s[j] == s.drop_first()[j - 1]);
    }
}

/// The key predicate for registry string facts.
pub open spec fn reg_string_key(hive: HKEY, path: Seq<char>, name: Seq<char>) -> spec_fn(
    RegStringModel,
) -> bool {
    |f: RegStringModel| f.hive == hive && f.path == path && f.name == name
}

/// The string recorded for this registry value, if any.
pub open spec fn reg_string_of(
    p: ProbeModel,
    hive: HKEY,
    path: Seq<char>,
    name: Seq<char>,
) -> Option<Seq<char>> {
    let i = first_match(p.reg_strings, reg_string_key(hive, path, name));
    if i >= 0 {
        Some(p.reg_strings[i].value)
    } else {
        None
    }
}

/// The key predicate for registry 32-bit facts.
pub open spec fn reg_dword_key(hive: HKEY, path: Seq<char>, name: Seq<char>) -> spec_fn(
    RegDwordModel,
) -> bool {
    |f: RegDwordModel| f.hive == hive && f.path == path && f.name == name
}

/// The 32-bit value recorded for this registry value, if any.
pub open spec fn reg_dword_of(
    p: ProbeModel,
    hive: HKEY,
    path: Seq<char>,
    name: Seq<char>,
) -> Option<u32> {
    let i = first_match(p.reg_dwords, reg_dword_key(hive, path, name));
    if i >= 0 {
        Some(p.reg_dwords[i].value)
    } else {
        None
    }
}

/// Reads a string value from the probe's registry snapshot; absent keys,
/// like every probe failure, collapse to `None`.
pub fn read_registry_string(p: &Probe, hkey: HKEY, subkey: &str, value_name: &str) -> (r: Option<
    String,
>)
    ensures
        match r {
            Some(s) => reg_string_of(p@, hkey, subkey@, value_name@) == Some(s@),
            None => reg_string_of(p@, hkey, subkey@, value_name@) is None,
        },
{
    let ghost pred = reg_string_key(hkey, subkey@, value_name@);
    proof {
        lemma_first_match(p@.reg_strings, pred);
    }
    let n = p.reg_strings.len();
    let mut i: usize = 0;
    while i < n
        invariant
            0 <= i <= n,
            n == p.reg_strings.len(),
            pred == reg_string_key(hkey, subkey@, value_name@),
            forall|j: int| 0 <= j < i ==> !pred(p@.reg_strings[j]),
        decreases n - i,
    {
        proof {
            assert(p@.reg_strings[i as int] == p.reg_strings@[i as int]@);
        }
        let f = &p.reg_strings[i];
        if f.hive == hkey && str_eq(f.path.as_str(), subkey) && str_eq(
            f.name.as_str(),
            value_name,
        ) {
            proof {
                lemma_first_match(p@.reg_strings, pred);
            }
            return Some(f.value.clone());
        }
        i = i + 1;
    }
    proof {
        lemma_first_match(p@.reg_strings, pred);
    }
    None
}

/// Reads a 32-bit value from the probe's registry snapshot; absent keys,
/// like every probe failure, collapse to `None`.
pub fn read_registry_dword(p: &Probe, hkey: HKEY, subkey: &str, value_name: &str) -> (r: Option<
    u32,
>)
    ensures
        r == reg_dword_of(p@, hkey, subkey@, value_name@),
{
    let ghost pred = reg_dword_key(hkey, subkey@, value_name@);
    proof {
        lemma_first_match(p@.reg_dwords, pred);
    }
    let n = p.reg_dwords.len();
    let mut i: usize = 0;
    while i < n
        invariant
            0 <= i <= n,
            n == p.reg_dwords.len(),
            pred == reg_dword_key(hkey, subkey@, value_name@),
            forall|j: int| 0 <= j < i ==> !pred(p@.reg_dwords[j]),
        decreases n - i,
    {
        proof {
            assert(p@.reg_dwords[i as int] == p.reg_dwords@[i as int]@);
        }
        let f = &p.reg_dwords[i];
        if f.hive == hkey && str_eq(f.path.as_str(), subkey) && str_eq(
            f.name.as_str(),
            value_name,
        ) {
            proof {
                lemma_first_match(p@.reg_dwords, pred);
            }
            return Some(f.value);
        }
        i = i + 1;
    }
    proof {
        lemma_first_match(p@.reg_dwords, pred);
    }
    None
}

/// Whether some value (string or 32-bit) is recorded directly under the
/// key itself, which this probe represents as the empty value name.
pub open spec fn reg_key_exists_spec(p: ProbeModel, hive: HKEY, path: Seq<char>) -> bool {
    reg_string_of(p, hive, path, ""@) is Some || reg_dword_of(p, hive, path, ""@) is Some
}

/// Whether the registry key itself is present in the snapshot.
pub fn registry_key_exists(p: &Probe, hkey: HKEY, subkey: &str) -> (r: bool)
    ensures
        r == reg_key_exists_spec(p@, hkey, subkey@),
{
    read_registry_string(p, hkey, subkey, "").is_some() || read_registry_dword(
        p,
        hkey,
        subkey,
        "",
    ).is_some()
}

/// Whether a value of either kind is recorded under the key.
pub open spec fn reg_value_exists_spec(
    p: ProbeModel,
    hive: HKEY,
    path: Seq<char>,
    name: Seq<char>,
) -> bool {
    reg_string_of(p, hive, path, name) is Some || reg_dword_of(p, hive, path, name) is Some
}

/// Whether the registry value is present in the snapshot.
pub fn registry_value_exists(p: &Probe, hkey: HKEY, subkey: &str, value_name: &str) -> (r: bool)
    ensures
        r == reg_value_exists_spec(p@, hkey, subkey@, value_name@),
{
    read_registry_string(p, hkey, subkey, value_name).is_some() || read_registry_dword(
        p,
        hkey,
        subkey,
        value_name,
    ).is_some()
}

/// An identifier safe to use in a management-instrumentation query:
/// ASCII letters, digits, or underscores only.
pub open spec fn is_wmi_ident_char(c: char) -> bool {
    ('a' <= c && c <= 'z') || ('A' <= c && c <= 'Z') || ('0' <= c && c <= '9') || c == '_'
}

/// Every character of the identifier is acceptable.
pub open spec fn wmi_ident_ok(s: Seq<char>) -> bool {
    forall|i: int| 0 <= i < s.len() ==> is_wmi_ident_char(s[i])
}

/// Checks an identifier before it is used in a query.
pub fn sanitize_wmi_identifier(s: &str) -> (r: bool)
    ensures
        r == wmi_ident_ok(s@),
{
    let n = s.unicode_len();
    let mut i: usize = 0;
    while i < n
        invariant
            0 <= i <= n,
            n == s@.len(),
            forall|j: int| 0 <= j < i ==> is_wmi_ident_char(s@[j]),
        decreases n - i,
    {
        let c = s.get_char(i);
        if !(('a' <= c && c <= 'z') || ('A' <= c && c <= 'Z') || ('0' <= c && c <= '9') || c
            == '_') {
            return false;
        }
        i = i + 1;
    }
    true
}

/// The key predicate for string-valued class properties.
pub open spec fn wmi_string_key(class: Seq<char>, property: Seq<char>) -> spec_fn(
    WmiStringModel,
) -> bool {
    |f: WmiStringModel| f.class == class && f.property == property
}

/// What a string query returns: absence for a rejected identifier, else
/// the first recorded fact.
pub open spec fn wmi_string_of(p: ProbeModel, class: Seq<char>, property: Seq<char>) -> Option<
    Seq<char>,
> {
    if !wmi_ident_ok(class) || !wmi_ident_ok(property) {
        None
    } else {
        let i = first_match(p.wmi_strings, wmi_string_key(class, property));
        if i >= 0 {
            Some(p.wmi_strings[i].value)
        } else {
            None
        }
    }
}

/// Reads a string property from the probe's instrumentation snapshot.
pub fn query_wmi_string(p: &Probe, class: &str, property: &str) -> (r: Option<String>)
    ensures
        match r {
            Some(s) => wmi_string_of(p@, class@, property@) == Some(s@),
            None => wmi_string_of(p@, class@, property@) is None,
        },
{
    if !sanitize_wmi_identifier(class) || !sanitize_wmi_identifier(property) {
        return None;
    }
    let ghost pred = wmi_string_key(class@, property@);
    let n = p.wmi_strings.len();
    let mut i: usize = 0;
    while i < n
        invariant
            0 <= i <= n,
            n == p.wmi_strings.len(),
            wmi_ident_ok(class@) && wmi_ident_ok(property@),
            pred == wmi_string_key(class@, property@),
            forall|j: int| 0 <= j < i ==> !pred(p@.wmi_strings[j]),
        decreases n - i,
    {
        proof {
            assert(p@.wmi_strings[i as int] == p.wmi_strings@[i as int]@);
        }
        let f = &p.wmi_strings[i];
        if str_eq(f.class.as_str(), class) && str_eq(f.property.as_str(), property) {
            proof {
                lemma_first_match(p@.wmi_strings, pred);
            }
            return Some(f.value.clone());
        }
        i = i + 1;
    }
    proof {
        lemma_first_match(p@.wmi_strings, pred);
    }
    None
}

/// The key predicate for 32-bit class properties.
pub open spec fn wmi_u32_key(class: Seq<char>, property: Seq<char>) -> spec_fn(
    WmiU32Model,
) -> bool {
    |f: WmiU32Model| f.class == class && f.property == property
}

/// What a 32-bit query returns.
pub open spec fn wmi_u32_of(p: ProbeModel, class: Seq<char>, property: Seq<char>) -> Option<u32> {
    if !wmi_ident_ok(class) || !wmi_ident_ok(property) {
        None
    } else {
        let i = first_match(p.wmi_u32s, wmi_u32_key(class, property));
        if i >= 0 {
            Some(p.wmi_u32s[i].value)
        } else {
            None
        }
    }
}

/// Reads a 32-bit property from the probe's instrumentation snapshot.
pub fn query_wmi_u32(p: &Probe, class: &str, property: &str) -> (r: Option<u32>)
    ensures
        r == wmi_u32_of(p@, class@, property@),
{
    if !sanitize_wmi_identifier(class) || !sanitize_wmi_identifier(property) {
        return None;
    }
    let ghost pred = wmi_u32_key(class@, property@);
    let n = p.wmi_u32s.len();
    let mut i: usize = 0;
    while i < n
        invariant
            0 <= i <= n,
            n == p.wmi_u32s.len(),
            wmi_ident_ok(class@) && wmi_ident_ok(property@),
            pred == wmi_u32_key(class@, property@),
            forall|j: int| 0 <= j < i ==> !pred(p@.wmi_u32s[j]),
        decreases n - i,
    {
        proof {
            assert(p@.wmi_u32s[i as int] == p.wmi_u32s@[i as int]@);
        }
        let f = &p.wmi_u32s[i];
        if str_eq(f.class.as_str(), class) && str_eq(f.property.as_str(), property) {
            proof {
                lemma_first_match(p@.wmi_u32s, pred);
            }
            return Some(f.value);
        }
        i = i + 1;
    }
    proof {
        lemma_first_match(p@.wmi_u32s, pred);
    }
    None
}

/// The key predicate for 64-bit class properties.
pub open spec fn wmi_u64_key(class: Seq<char>, property: Seq<char>) -> spec_fn(
    WmiU64Model,
) -> bool {
    |f: WmiU64Model| f.class == class && f.property == property
}

/// What a 64-bit query returns.
pub open spec fn wmi_u64_of(p: ProbeModel, class: Seq<char>, property: Seq<char>) -> Option<u64> {
    if !wmi_ident_ok(class) || !wmi_ident_ok(property) {
        None
    } else {
        let i = first_match(p.wmi_u64s, wmi_u64_key(class, property));
        if i >= 0 {
            Some(p.wmi_u64s[i].value)
        } else {
            None
        }
    }
}

/// Reads a 64-bit property from the probe's instrumentation snapshot.
pub fn query_wmi_u64(p: &Probe, class: &str, property: &str) -> (r: Option<u64>)
    ensures
        r == wmi_u64_of(p@, class@, property@),
{
    if !sanitize_wmi_identifier(class) || !sanitize_wmi_identifier(property) {
        return None;
    }
    let ghost pred = wmi_u64_key(class@, property@);
    let n = p.wmi_u64s.len();
    let mut i: usize = 0;
    while i < n
        invariant
            0 <= i <= n,
            n == p.wmi_u64s.len(),
            wmi_ident_ok(class@) && wmi_ident_ok(property@),
            pred == wmi_u64_key(class@, property@),
            forall|j: int| 0 <= j < i ==> !pred(p@.wmi_u64s[j]),
        decreases n - i,
    {
        proof {
            assert(p@.wmi_u64s[i as int] == p.wmi_u64s@[i as int]@);
        }
        let f = &p.wmi_u64s[i];
        if str_eq(f.class.as_str(), class) && str_eq(f.property.as_str(), property) {
            proof {
                lemma_first_match(p@.wmi_u64s, pred);
            }
            return Some(f.value);
        }
        i = i + 1;
    }
    proof {
        lemma_first_match(p@.wmi_u64s, pred);
    }
    None
}

/// The key predicate for instance counts.
pub open spec fn wmi_count_key(class: Seq<char>) -> spec_fn(WmiCountModel) -> bool {
    |f: WmiCountModel| f.class == class
}

/// What an instance count returns: zero for a rejected identifier or an
/// unrecorded class, else the first recorded count.
pub open spec fn wmi_count_of(p: ProbeModel, class: Seq<char>) -> usize {
    if !wmi_ident_ok(class) {
        0
    } else {
        let i = first_match(p.wmi_counts, wmi_count_key(class));
        if i >= 0 {
            p.wmi_counts[i].count
        } else {
            0
        }
    }
}

/// Counts the recorded instances of a class.
pub fn count_wmi_instances(p: &Probe, class: &str) -> (r: usize)
    ensures
        r == wmi_count_of(p@, class@),
{
    if !sanitize_wmi_identifier(class) {
        return 0;
    }
    let ghost pred = wmi_count_key(class@);
    let n = p.wmi_counts.len();
    let mut i: usize = 0;
    while i < n
        invariant
            0 <= i <= n,
            n == p.wmi_counts.len(),
            wmi_ident_ok(class@),
            pred == wmi_count_key(class@),
            forall|j: int| 0 <= j < i ==> !pred(p@.wmi_counts[j]),
        decreases n - i,
    {
        proof {
            assert(p@.wmi_counts[i as int] == p.wmi_counts@[i as int]@);
        }
        let f = &p.wmi_counts[i];
        if str_eq(f.class.as_str(), class) {
            proof {
                lemma_first_match(p@.wmi_counts, pred);
            }
            return f.count;
        }
        i = i + 1;
    }
    proof {
        lemma_first_match(p@.wmi_counts, pred);
    }
    0
}

/// The key predicate for service states.
pub open spec fn service_key(name: Seq<char>) -> spec_fn(ServiceModel) -> bool {
    |f: ServiceModel| f.name == name
}

/// The recorded state of a service, if any.
pub open spec fn service_status_of(p: ProbeModel, name: Seq<char>) -> Option<Seq<char>> {
    let i = first_match(p.services, service_key(name));
    if i >= 0 {
        Some(p.services[i].state)
    } else {
        None
    }
}

/// Reads a service's state from the snapshot.
pub fn query_service_status(p: &Probe, service_name: &str) -> (r: Option<String>)
    ensures
        match r {
            Some(s) => service_status_of(p@, service_name@) == Some(s@),
            None => service_status_of(p@, service_name@) is None,
        },
{
    let ghost pred = service_key(service_name@);
    let n = p.services.len();
    let mut i: usize = 0;
    while i < n
        invariant
            0 <= i <= n,
            n == p.services.len(),
            pred == service_key(service_name@),
            forall|j: int| 0 <= j < i ==> !pred(p@.services[j]),
        decreases n - i,
    {
        proof {
            assert(p@.services[i as int] == p.services@[i as int]@);
        }
        let f = &p.services[i];
        if str_eq(f.name.as_str(), service_name) {
            proof {
                lemma_first_match(p@.services, pred);
            }
            return Some(f.state.clone());
        }
        i = i + 1;
    }
    proof {
        lemma_first_match(p@.services, pred);
    }
    None
}

/// The processor facts of the snapshot, if recorded.
pub fn query_cpu_info(p: &Probe) -> (r: Option<CpuInfo>)
    ensures
        match r {
            Some(c) => p@.cpu == Some(c@),
            None => p@.cpu is None,
        },
{
    match &p.cpu {
        Some(c) => Some(
            CpuInfo {
                name: c.name.clone(),
                cores: c.cores,
                logical: c.logical,
                max_clock: c.max_clock,
                current_clock: c.current_clock,
                l2_cache: c.l2_cache,
                l3_cache: c.l3_cache,
                architecture: c.architecture,
            },
        ),
        None => None,
    }
}

/// The primary display adapter's name and dedicated memory in bytes, if
/// recorded.
pub fn get_gpu_info(p: &Probe) -> (r: Option<(String, u64)>)
    ensures
        match r {
            Some(g) => p@.gpu == Some((g.0@, g.1)),
            None => p@.gpu is None,
        },
{
    match &p.gpu {
        Some(g) => Some((g.0.clone(), g.1)),
        None => None,
    }
}

/// Whether the snapshot records this filesystem path as present.
pub open spec fn path_exists_spec(p: ProbeModel, path: Seq<char>) -> bool {
    p.paths.contains(path)
}

/// Whether a filesystem path is recorded as present.
pub fn path_exists(p: &Probe, path: &str) -> (r: bool)
    ensures
        r == path_exists_spec(p@, path@),
{
    let n = p.paths.len();
    let mut i: usize = 0;
    while i < n
        invariant
            0 <= i <= n,
            n == p.paths.len(),
            forall|j: int| 0 <= j < i ==> p@.paths[j] != path@,
        decreases n - i,
    {
        proof {
            assert(p@.paths[i as int] == p.paths@[i as int]@);
        }
        if str_eq(p.paths[i].as_str(), path) {
            return true;
        }
        i = i + 1;
    }
    false
}

} // verus!
