//! The orchestrator: evaluates the requested categories concurrently
//! over a worker pool, then merges the results sequentially into one
//! store. The final check order inside each category is the evaluator's
//! declared order, never the workers' completion order.

use crate::checks::audio::{run_audio_checks, spec_audio_checks};
use crate::checks::cpu::{run_cpu_checks, spec_cpu_checks};
use crate::checks::gpu::{run_gpu_checks, spec_gpu_checks};
use crate::checks::input::{run_input_checks, spec_input_checks};
use crate::checks::latency::{run_latency_checks, spec_latency_checks};
use crate::checks::memory::{run_memory_checks, spec_memory_checks};
use crate::checks::network::{run_network_checks, spec_network_checks};
use crate::checks::platform::{run_platform_checks, spec_platform_checks};
use crate::checks::power::{run_power_checks, spec_power_checks};
use crate::checks::security::{run_security_checks, spec_security_checks};
use crate::checks::services::{run_services_checks, spec_services_checks};
use crate::checks::stability::{run_stability_checks, spec_stability_checks};
use crate::checks::storage::{run_storage_checks, spec_storage_checks};
use crate::checks::thermal::{run_thermal_checks, spec_thermal_checks};
use crate::probe::{Probe, ProbeModel};
use crate::strutil::str_eq;
use crate::types::{
    insert_category,
    results_wf,
    AuditResults,
    CategoryModel,
    CategoryResults,
};
use rayon::iter::{IndexedParallelIterator, IntoParallelRefIterator, ParallelIterator};
use vstd::prelude::*;

verus! {

/// The catalog's request keys, in the order a full audit runs them.
pub open spec fn catalog_keys() -> Seq<Seq<char>> {
    Seq::empty().push("latency"@).push("cpu"@).push("gpu"@).push("memory"@).push("storage"@).push(
        "network"@,
    ).push("audio"@).push("input"@).push("stability"@).push("services"@).push("security"@).push(
        "platform"@,
    ).push("thermal"@).push("power"@)
}

/// What evaluating one requested name yields: the matching category's
/// checks under its display name; an unknown name yields an empty
/// result under the requested name itself, not an error.
pub open spec fn spec_eval_category(name: Seq<char>, p: ProbeModel) -> CategoryModel {
    if name == "latency"@ {
        CategoryModel { name: "Latency"@, checks: spec_latency_checks(p) }
    } else if name == "cpu"@ {
        CategoryModel { name: "CPU"@, checks: spec_cpu_checks(p) }
    } else if name == "gpu"@ {
        CategoryModel { name: "GPU"@, checks: spec_gpu_checks(p) }
    } else if name == "memory"@ {
        CategoryModel { name: "Memory"@, checks: spec_memory_checks(p) }
    } else if name == "storage"@ {
        CategoryModel { name: "Storage"@, checks: spec_storage_checks(p) }
    } else if name == "network"@ {
        CategoryModel { name: "Network"@, checks: spec_network_checks(p) }
    } else if name == "audio"@ {
        CategoryModel { name: "Audio"@, checks: spec_audio_checks(p) }
    } else if name == "input"@ {
        CategoryModel { name: "Input"@, checks: spec_input_checks(p) }
    } else if name == "stability"@ {
        CategoryModel { name: "Stability"@, checks: spec_stability_checks() }
    } else if name == "services"@ {
        CategoryModel { name: "Services"@, checks: spec_services_checks(p) }
    } else if name == "security"@ {
        CategoryModel { name: "Security"@, checks: spec_security_checks(p) }
    } else if name == "platform"@ {
        CategoryModel { name: "Platform"@, checks: spec_platform_checks(p) }
    } else if name == "thermal"@ {
        CategoryModel { name: "Thermal"@, checks: spec_thermal_checks() }
    } else if name == "power"@ {
        CategoryModel { name: "Power"@, checks: spec_power_checks(p) }
    } else {
        CategoryModel { name: name, checks: Seq::empty() }
    }
}

/// Evaluates one requested category against the probe snapshot. The
/// result is a pure function of the name and the snapshot.
pub fn evaluate_category(name: &str, p: &Probe) -> (r: CategoryResults)
    ensures
        r@ == spec_eval_category(name@, p@),
{
    if str_eq(name, "latency") {
        run_latency_checks(p)
    } else if str_eq(name, "cpu") {
        run_cpu_checks(p)
    } else if str_eq(name, "gpu") {
        run_gpu_checks(p)
    } else if str_eq(name, "memory") {
        run_memory_checks(p)
    } else if str_eq(name, "storage") {
        run_storage_checks(p)
    } else if str_eq(name, "network") {
        run_network_checks(p)
    } else if str_eq(name, "audio") {
        run_audio_checks(p)
    } else if str_eq(name, "input") {
        run_input_checks(p)
    } else if str_eq(name, "stability") {
        run_stability_checks()
    } else if str_eq(name, "services") {
        run_services_checks(p)
    } else if str_eq(name, "security") {
        run_security_checks(p)
    } else if str_eq(name, "platform") {
        run_platform_checks(p)
    } else if str_eq(name, "thermal") {
        run_thermal_checks()
    } else if str_eq(name, "power") {
        run_power_checks(p)
    } else {
        CategoryResults::new(name)
    }
}

/// Relies on rayon: `par_iter().map(..).collect_into_vec(..)` applies
/// the closure to every element on the shared worker pool and writes
/// the results back in the input's order, as its documentation and
/// doctests show. The closure only calls the verified evaluator.
#[verifier::external_body]
fn evaluate_categories_parallel(names: &Vec<String>, p: &Probe) -> (r: Vec<CategoryResults>)
    ensures
        r@.len() == names@.len(),
        forall|i: int|
            0 <= i < names@.len() ==> r@[i]@ == spec_eval_category(names@[i]@, p@),
{
    let mut out: Vec<CategoryResults> = Vec::new();
    names.par_iter().map(|n| evaluate_category(n.as_str(), p)).collect_into_vec(&mut out);
    out
}

/// Folds category results into a store, left to right, by keyed insert.
pub open spec fn merge_into(cats: Seq<CategoryModel>, rs: Seq<CategoryModel>) -> Seq<
    CategoryModel,
>
    decreases rs.len(),
{
    if rs.len() == 0 {
        cats
    } else {
        merge_into(insert_category(cats, rs[0]), rs.drop_first())
    }
}

/// Folding one more result applies one more keyed insert at the end.
pub proof fn lemma_merge_into_snoc(
    cats: Seq<CategoryModel>,
    rs: Seq<CategoryModel>,
    x: CategoryModel,
)
    ensures
        merge_into(cats, rs.push(x)) == insert_category(merge_into(cats, rs), x),
    decreases rs.len(),
{
    if rs.len() == 0 {
        let e = Seq::<CategoryModel>::empty();
        assert(rs.push(x)[0] == x);
        assert(rs.push(x).drop_first() =~= e);
        assert(merge_into(cats, rs.push(x)) == merge_into(insert_category(cats, x), e));
        assert(merge_into(insert_category(cats, x), e) == insert_category(cats, x));
        assert(merge_into(cats, rs) == cats);
    } else {
        assert(rs.push(x)[0] == rs[0]);
        assert(rs.push(x).drop_first() =~= rs.drop_first().push(x));
        assert(merge_into(cats, rs.push(x)) == merge_into(
            insert_category(cats, rs[0]),
            rs.drop_first().push(x),
        ));
        lemma_merge_into_snoc(insert_category(cats, rs[0]), rs.drop_first(), x);
        assert(merge_into(cats, rs) == merge_into(insert_category(cats, rs[0]), rs.drop_first()));
    }
}

/// The names a request selects: the full catalog by default, or exactly
/// the one requested name.
pub open spec fn requested_keys(filter: Option<Seq<char>>) -> Seq<Seq<char>> {
    match filter {
        Option::Some(n) => Seq::empty().push(n),
        Option::None => catalog_keys(),
    }
}

/// The store contents after a whole audit: each selected name evaluated
/// against the snapshot, then merged left to right by keyed insert.
pub open spec fn spec_audit_categories(p: ProbeModel, filter: Option<Seq<char>>) -> Seq<
    CategoryModel,
> {
    merge_into(
        Seq::empty(),
        requested_keys(filter).map_values(|n: Seq<char>| spec_eval_category(n, p)),
    )
}

/// Runs the audit: evaluates the selected categories concurrently, then
/// merges all results into a fresh store in request order. An unknown
/// requested name yields an empty-but-successful result.
pub fn run_all_checks(p: &Probe, category: Option<&str>) -> (r: AuditResults)
    ensures
        results_wf(r@),
        r@.categories == spec_audit_categories(
            p@,
            match category {
                Option::Some(c) => Option::Some(c@),
                Option::None => Option::None,
            },
        ),
{
    let ghost filter: Option<Seq<char>> = match category {
        Option::Some(c) => Option::Some(c@),
        Option::None => Option::None,
    };
    let mut names: Vec<String> = Vec::new();
    match category {
        Some(c) => {
            names.push(String::from_str(c));
        },
        None => {
            names.push(String::from_str("latency"));
            names.push(String::from_str("cpu"));
            names.push(String::from_str("gpu"));
            names.push(String::from_str("memory"));
            names.push(String::from_str("storage"));
            names.push(String::from_str("network"));
            names.push(String::from_str("audio"));
            names.push(String::from_str("input"));
            names.push(String::from_str("stability"));
            names.push(String::from_str("services"));
            names.push(String::from_str("security"));
            names.push(String::from_str("platform"));
            names.push(String::from_str("thermal"));
            names.push(String::from_str("power"));
        },
    }
    proof {
        assert(names@.map_values(|n: String| n@) =~= requested_keys(filter));
    }
    let mut cats = evaluate_categories_parallel(&names, p);
    let ghost items = requested_keys(filter).map_values(|n: Seq<char>| spec_eval_category(n, p@));
    proof {
        assert(cats@.map_values(|c: CategoryResults| c@) =~= items);
    }
    let mut results = AuditResults::new();
    let ghost total = items.len();
    let mut k: usize = 0;
    let n = cats.len();
    while k < n
        invariant
            0 <= k <= n,
            n == cats.len() + k,
            total == items.len(),
            n == total,
            cats@.map_values(|c: CategoryResults| c@) =~= items.skip(k as int),
            results_wf(results@),
            results@.categories == merge_into(Seq::empty(), items.take(k as int)),
        decreases n - k,
    {
        let ghost pre = cats@;
        let c = cats.remove(0);
        proof {
            assert(cats@ =~= pre.drop_first());
            assert(c@ == pre.map_values(|cc: CategoryResults| cc@)[0]);
            assert(c@ == items.skip(k as int)[0]);
            assert(items.skip(k as int)[0] == items[k as int]);
            assert(items.take(k as int).push(items[k as int]) =~= items.take(k + 1));
            lemma_merge_into_snoc(Seq::empty(), items.take(k as int), items[k as int]);
            let ghost mapped = cats@.map_values(|cc: CategoryResults| cc@);
            assert forall|idx: int| 0 <= idx < mapped.len() implies #[trigger] mapped[idx]
                == items.skip(k + 1)[idx] by {
                assert(cats@[idx] == pre[idx + 1]);
                assert(pre.map_values(|cc: CategoryResults| cc@)[idx + 1] == items.skip(
                    k as int,
                )[idx + 1]);
            }
            assert(mapped =~= items.skip(k + 1));
        }
        results.add_category(c);
        k = k + 1;
    }
    proof {
        assert(items.take(total as int) =~= items);
    }
    results
}

} // verus!
