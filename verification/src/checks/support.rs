//! The uniform decision shapes shared by the catalog's checks: query
//! zero or more facts, fall back to a documented default on absence,
//! classify by a fixed predicate, and produce exactly one check.

use crate::probe::{
    read_registry_dword,
    read_registry_string,
    reg_dword_of,
    reg_string_of,
    query_service_status,
    query_wmi_string,
    service_status_of,
    wmi_string_of,
    Probe,
    ProbeModel,
    HKEY,
};
use crate::strutil::{dec_str, u32_to_dec};
use crate::types::{described_check_model, Check, CheckModel, CheckStatus};
use vstd::prelude::*;

verus! {

/// A check whose value and status are fixed at declaration time.
pub open spec fn spec_static_check(
    name: Seq<char>,
    value: Seq<char>,
    status: CheckStatus,
    desc: Seq<char>,
) -> CheckModel {
    described_check_model(name, value, status, desc)
}

/// Produces a check with a fixed value and status.
pub fn static_check(name: &str, value: &str, status: CheckStatus, desc: &str) -> (c: Check)
    ensures
        c@ == spec_static_check(name@, value@, status, desc@),
{
    Check::new(name, value, status).with_description(desc)
}

/// A registry flag: one value and status when the fact equals the
/// target, another otherwise (including absence).
pub open spec fn spec_dword_eq_check(
    p: ProbeModel,
    hive: HKEY,
    path: Seq<char>,
    vname: Seq<char>,
    target: u32,
    name: Seq<char>,
    eq_value: Seq<char>,
    ne_value: Seq<char>,
    eq_status: CheckStatus,
    ne_status: CheckStatus,
    desc: Seq<char>,
) -> CheckModel {
    let v = reg_dword_of(p, hive, path, vname);
    if v == Some(target) {
        described_check_model(name, eq_value, eq_status, desc)
    } else {
        described_check_model(name, ne_value, ne_status, desc)
    }
}

/// Classifies a registry flag against one target value.
pub fn dword_eq_check(
    p: &Probe,
    hive: HKEY,
    path: &str,
    vname: &str,
    target: u32,
    name: &str,
    eq_value: &str,
    ne_value: &str,
    eq_status: CheckStatus,
    ne_status: CheckStatus,
    desc: &str,
) -> (c: Check)
    ensures
        c@ == spec_dword_eq_check(
            p@,
            hive,
            path@,
            vname@,
            target,
            name@,
            eq_value@,
            ne_value@,
            eq_status,
            ne_status,
            desc@,
        ),
{
    let v = read_registry_dword(p, hive, path, vname);
    let hit = match v {
        Some(x) => x == target,
        None => false,
    };
    if hit {
        Check::new(name, eq_value, eq_status).with_description(desc)
    } else {
        Check::new(name, ne_value, ne_status).with_description(desc)
    }
}

/// A registry flag whose display follows one target but whose status
/// also passes when the fact is absent: the value compares against
/// `val_target`, the status passes when the fact equals `st_target` or
/// is absent.
pub open spec fn spec_dword_flag2_check(
    p: ProbeModel,
    hive: HKEY,
    path: Seq<char>,
    vname: Seq<char>,
    val_target: u32,
    st_target: u32,
    name: Seq<char>,
    eq_value: Seq<char>,
    ne_value: Seq<char>,
    pass_status: CheckStatus,
    fail_status: CheckStatus,
    desc: Seq<char>,
) -> CheckModel {
    let v = reg_dword_of(p, hive, path, vname);
    let value = if v == Some(val_target) {
        eq_value
    } else {
        ne_value
    };
    let st = if v == Some(st_target) || v is None {
        pass_status
    } else {
        fail_status
    };
    described_check_model(name, value, st, desc)
}

/// Classifies a registry flag whose absence counts as passing.
pub fn dword_flag2_check(
    p: &Probe,
    hive: HKEY,
    path: &str,
    vname: &str,
    val_target: u32,
    st_target: u32,
    name: &str,
    eq_value: &str,
    ne_value: &str,
    pass_status: CheckStatus,
    fail_status: CheckStatus,
    desc: &str,
) -> (c: Check)
    ensures
        c@ == spec_dword_flag2_check(
            p@,
            hive,
            path@,
            vname@,
            val_target,
            st_target,
            name@,
            eq_value@,
            ne_value@,
            pass_status,
            fail_status,
            desc@,
        ),
{
    let v = read_registry_dword(p, hive, path, vname);
    let val_hit = match v {
        Some(x) => x == val_target,
        None => false,
    };
    let st_pass = match v {
        Some(x) => x == st_target,
        None => true,
    };
    let value = if val_hit {
        eq_value
    } else {
        ne_value
    };
    let st = if st_pass {
        pass_status
    } else {
        fail_status
    };
    Check::new(name, value, st).with_description(desc)
}

/// A registry fact whose mere presence decides value and status.
pub open spec fn spec_dword_presence_check(
    p: ProbeModel,
    hive: HKEY,
    path: Seq<char>,
    vname: Seq<char>,
    name: Seq<char>,
    some_value: Seq<char>,
    none_value: Seq<char>,
    some_status: CheckStatus,
    none_status: CheckStatus,
    desc: Seq<char>,
) -> CheckModel {
    let v = reg_dword_of(p, hive, path, vname);
    if v is Some {
        described_check_model(name, some_value, some_status, desc)
    } else {
        described_check_model(name, none_value, none_status, desc)
    }
}

/// Classifies a registry fact by presence.
pub fn dword_presence_check(
    p: &Probe,
    hive: HKEY,
    path: &str,
    vname: &str,
    name: &str,
    some_value: &str,
    none_value: &str,
    some_status: CheckStatus,
    none_status: CheckStatus,
    desc: &str,
) -> (c: Check)
    ensures
        c@ == spec_dword_presence_check(
            p@,
            hive,
            path@,
            vname@,
            name@,
            some_value@,
            none_value@,
            some_status,
            none_status,
            desc@,
        ),
{
    let v = read_registry_dword(p, hive, path, vname);
    if v.is_some() {
        Check::new(name, some_value, some_status).with_description(desc)
    } else {
        Check::new(name, none_value, none_status).with_description(desc)
    }
}

/// A registry number displayed in decimal with a documented fallback
/// default and a fixed unit suffix.
pub open spec fn spec_dword_show_check(
    p: ProbeModel,
    hive: HKEY,
    path: Seq<char>,
    vname: Seq<char>,
    default: u32,
    suffix: Seq<char>,
    name: Seq<char>,
    status: CheckStatus,
    desc: Seq<char>,
) -> CheckModel {
    let v = reg_dword_of(p, hive, path, vname);
    let shown = match v {
        Some(x) => x,
        None => default,
    };
    described_check_model(name, dec_str(shown as nat) + suffix, status, desc)
}

/// Displays a registry number, substituting the default on absence.
pub fn dword_show_check(
    p: &Probe,
    hive: HKEY,
    path: &str,
    vname: &str,
    default: u32,
    suffix: &str,
    name: &str,
    status: CheckStatus,
    desc: &str,
) -> (c: Check)
    ensures
        c@ == spec_dword_show_check(
            p@,
            hive,
            path@,
            vname@,
            default,
            suffix@,
            name@,
            status,
            desc@,
        ),
{
    let v = read_registry_dword(p, hive, path, vname);
    let shown = match v {
        Some(x) => x,
        None => default,
    };
    let mut value = u32_to_dec(shown);
    value.append(suffix);
    Check::new(name, value.as_str(), status).with_description(desc)
}

/// A registry number displayed in decimal whose status compares the
/// raw fact against one target.
pub open spec fn spec_dword_eq_show_check(
    p: ProbeModel,
    hive: HKEY,
    path: Seq<char>,
    vname: Seq<char>,
    target: u32,
    default: u32,
    suffix: Seq<char>,
    name: Seq<char>,
    eq_status: CheckStatus,
    ne_status: CheckStatus,
    desc: Seq<char>,
) -> CheckModel {
    let v = reg_dword_of(p, hive, path, vname);
    let shown = match v {
        Some(x) => x,
        None => default,
    };
    let st = if v == Some(target) {
        eq_status
    } else {
        ne_status
    };
    described_check_model(name, dec_str(shown as nat) + suffix, st, desc)
}

/// Displays a registry number and classifies it against one target.
pub fn dword_eq_show_check(
    p: &Probe,
    hive: HKEY,
    path: &str,
    vname: &str,
    target: u32,
    default: u32,
    suffix: &str,
    name: &str,
    eq_status: CheckStatus,
    ne_status: CheckStatus,
    desc: &str,
) -> (c: Check)
    ensures
        c@ == spec_dword_eq_show_check(
            p@,
            hive,
            path@,
            vname@,
            target,
            default,
            suffix@,
            name@,
            eq_status,
            ne_status,
            desc@,
        ),
{
    let v = read_registry_dword(p, hive, path, vname);
    let shown = match v {
        Some(x) => x,
        None => default,
    };
    let hit = match v {
        Some(x) => x == target,
        None => false,
    };
    let st = if hit {
        eq_status
    } else {
        ne_status
    };
    let mut value = u32_to_dec(shown);
    value.append(suffix);
    Check::new(name, value.as_str(), st).with_description(desc)
}

/// A registry text shown as the value, with a documented default.
pub open spec fn spec_string_show_check(
    p: ProbeModel,
    hive: HKEY,
    path: Seq<char>,
    vname: Seq<char>,
    default: Seq<char>,
    name: Seq<char>,
    status: CheckStatus,
    desc: Seq<char>,
) -> CheckModel {
    let v = reg_string_of(p, hive, path, vname);
    let shown = match v {
        Some(s) => s,
        None => default,
    };
    described_check_model(name, shown, status, desc)
}

/// Displays a registry text, substituting the default on absence.
pub fn string_show_check(
    p: &Probe,
    hive: HKEY,
    path: &str,
    vname: &str,
    default: &str,
    name: &str,
    status: CheckStatus,
    desc: &str,
) -> (c: Check)
    ensures
        c@ == spec_string_show_check(
            p@,
            hive,
            path@,
            vname@,
            default@,
            name@,
            status,
            desc@,
        ),
{
    let v = read_registry_string(p, hive, path, vname);
    match v {
        Some(s) => Check::new(name, s.as_str(), status).with_description(desc),
        None => Check::new(name, default, status).with_description(desc),
    }
}

/// A registry text whose mere presence decides value and status.
pub open spec fn spec_string_presence_check(
    p: ProbeModel,
    hive: HKEY,
    path: Seq<char>,
    vname: Seq<char>,
    name: Seq<char>,
    some_value: Seq<char>,
    none_value: Seq<char>,
    some_status: CheckStatus,
    none_status: CheckStatus,
    desc: Seq<char>,
) -> CheckModel {
    let v = reg_string_of(p, hive, path, vname);
    if v is Some {
        described_check_model(name, some_value, some_status, desc)
    } else {
        described_check_model(name, none_value, none_status, desc)
    }
}

/// Classifies a registry text by presence.
pub fn string_presence_check(
    p: &Probe,
    hive: HKEY,
    path: &str,
    vname: &str,
    name: &str,
    some_value: &str,
    none_value: &str,
    some_status: CheckStatus,
    none_status: CheckStatus,
    desc: &str,
) -> (c: Check)
    ensures
        c@ == spec_string_presence_check(
            p@,
            hive,
            path@,
            vname@,
            name@,
            some_value@,
            none_value@,
            some_status,
            none_status,
            desc@,
        ),
{
    let v = read_registry_string(p, hive, path, vname);
    if v.is_some() {
        Check::new(name, some_value, some_status).with_description(desc)
    } else {
        Check::new(name, none_value, none_status).with_description(desc)
    }
}

/// A service check: the value shows the recorded state (or `Unknown`),
/// the status is the declared default for that service.
pub open spec fn spec_service_check(
    p: ProbeModel,
    svc: Seq<char>,
    name: Seq<char>,
    status: CheckStatus,
    desc: Seq<char>,
) -> CheckModel {
    let v = service_status_of(p, svc);
    let shown = match v {
        Some(s) => s,
        None => "Unknown"@,
    };
    described_check_model(name, shown, status, desc)
}

/// Displays a service's recorded state.
pub fn service_check(p: &Probe, svc: &str, name: &str, status: CheckStatus, desc: &str) -> (c:
    Check)
    ensures
        c@ == spec_service_check(p@, svc@, name@, status, desc@),
{
    let v = query_service_status(p, svc);
    match v {
        Some(s) => Check::new(name, s.as_str(), status).with_description(desc),
        None => Check::new(name, "Unknown", status).with_description(desc),
    }
}

/// An instrumentation text shown as the value, defaulting to `Unknown`.
pub open spec fn spec_wmi_string_show_check(
    p: ProbeModel,
    class: Seq<char>,
    property: Seq<char>,
    name: Seq<char>,
    status: CheckStatus,
) -> CheckModel {
    let v = wmi_string_of(p, class, property);
    let shown = match v {
        Some(s) => s,
        None => "Unknown"@,
    };
    described_check_model(name, shown, status, ""@)
}

/// Displays an instrumentation text, defaulting to `Unknown`.
pub fn wmi_string_show_check(p: &Probe, class: &str, property: &str, name: &str, status:
    CheckStatus) -> (c: Check)
    ensures
        c@ == spec_wmi_string_show_check(p@, class@, property@, name@, status),
{
    let v = query_wmi_string(p, class, property);
    match v {
        Some(s) => Check::new(name, s.as_str(), status).with_description(""),
        None => Check::new(name, "Unknown", status).with_description(""),
    }
}

} // verus!
