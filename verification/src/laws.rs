//! The library's cross-function laws, each proved from the public
//! contracts and spec functions alone.

use crate::audit::{
    catalog_keys,
    merge_into,
    spec_audit_categories,
    spec_eval_category,
    requested_keys,
};
use crate::probe::{empty_probe_model, ProbeModel};
use crate::types::{
    index_of_name,
    CheckModel,
    insert_category,
    lemma_index_of_name,
    lookup_category,
    CategoryModel,
};
use vstd::prelude::*;

verus! {

/// `index_of_name` is pinned by the least-match characterization: an
/// in-range index holding the name, with no earlier match, is it.
proof fn lemma_index_of_name_pinned(cats: Seq<CategoryModel>, name: Seq<char>, i: int)
    requires
        0 <= i < cats.len(),
        cats[i].name == name,
        forall|j: int| 0 <= j < i ==> cats[j].name != name,
    ensures
        index_of_name(cats, name) == i,
    decreases cats.len(),
{
    if i == 0 {
    } else {
        assert(cats[0].name != name);
        assert(forall|j: int|
            0 <= j < i - 1 ==> cats.drop_first()[j] == cats[j + 1]);
        assert(cats.drop_first()[i - 1] == cats[i]);
        lemma_index_of_name_pinned(cats.drop_first(), name, i - 1);
    }
}

/// Inserting a category's results and then looking up its name returns
/// exactly those results, check list unchanged: last write wins.
pub proof fn lemma_insert_then_lookup(cats: Seq<CategoryModel>, c: CategoryModel)
    ensures
        lookup_category(insert_category(cats, c), c.name) == Some(c),
{
    lemma_index_of_name(cats, c.name);
    let i = index_of_name(cats, c.name);
    if i >= 0 {
        let updated = cats.update(i, c);
        assert(updated[i] == c);
        assert(forall|j: int| 0 <= j < i ==> updated[j] == cats[j]);
        lemma_index_of_name_pinned(updated, c.name, i);
    } else {
        let pushed = cats.push(c);
        assert(pushed[cats.len() as int] == c);
        assert(forall|j: int| 0 <= j < cats.len() ==> pushed[j] == cats[j]);
        lemma_index_of_name_pinned(pushed, c.name, cats.len() as int);
    }
}

/// Re-running one category's evaluator against an unchanged probe
/// snapshot yields the same checks, at the same indexes, on every run:
/// the evaluator's contract pins its whole result to a function of the
/// requested name and the snapshot, so internal completion order cannot
/// show through.
pub proof fn lemma_evaluation_deterministic(
    name: Seq<char>,
    p: ProbeModel,
    r1: CategoryModel,
    r2: CategoryModel,
)
    requires
        r1 == spec_eval_category(name, p),
        r2 == spec_eval_category(name, p),
    ensures
        r1 == r2,
        r1.checks == r2.checks,
{
}

/// Merging results whose names are fresh for the store, and pairwise
/// distinct, appends them in order with nothing overwritten.
pub proof fn lemma_merge_fresh(cats: Seq<CategoryModel>, rs: Seq<CategoryModel>)
    requires
        forall|i: int, j: int|
            0 <= i < cats.len() && 0 <= j < rs.len() ==> cats[i].name != rs[j].name,
        forall|i: int, j: int| 0 <= i < j < rs.len() ==> rs[i].name != rs[j].name,
    ensures
        merge_into(cats, rs) == cats + rs,
    decreases rs.len(),
{
    if rs.len() == 0 {
        assert(cats + rs =~= cats);
    } else {
        lemma_index_of_name(cats, rs[0].name);
        assert(index_of_name(cats, rs[0].name) == -1);
        assert(insert_category(cats, rs[0]) == cats.push(rs[0]));
        let cats2 = cats.push(rs[0]);
        let rest = rs.drop_first();
        assert(forall|i: int, j: int|
            0 <= i < cats2.len() && 0 <= j < rest.len() ==> cats2[i].name != rest[j].name) by {
            assert(forall|j: int| 0 <= j < rest.len() ==> rest[j] == rs[j + 1]);
        }
        assert(forall|i: int, j: int|
            0 <= i < j < rest.len() ==> rest[i].name != rest[j].name) by {
            assert(forall|j: int| 0 <= j < rest.len() ==> rest[j] == rs[j + 1]);
        }
        lemma_merge_fresh(cats2, rest);
        assert(cats2 + rest =~= cats + rs);
    }
}

/// A full audit in which every probe lookup reports absence still
/// completes with all fourteen categories present, in catalog order,
/// and a non-empty check list in every one: each check falls back to
/// its documented default rather than vanishing.
pub proof fn lemma_full_audit_absent_probe(p: ProbeModel)
    requires
        p == empty_probe_model(),
    ensures
        spec_audit_categories(p, Option::None).len() == 14,
        forall|i: int|
            0 <= i < spec_audit_categories(p, Option::None).len()
                ==> #[trigger] spec_audit_categories(p, Option::None)[i].checks.len() > 0,
{
    let keys = catalog_keys();
    let items = keys.map_values(|n: Seq<char>| spec_eval_category(n, p));
    assert(items.len() == 14);
    proof_catalog_key_facts();
    assert(items[0] == spec_eval_category("latency"@, p));
    assert(items[1] == spec_eval_category("cpu"@, p));
    assert(items[2] == spec_eval_category("gpu"@, p));
    assert(items[3] == spec_eval_category("memory"@, p));
    assert(items[4] == spec_eval_category("storage"@, p));
    assert(items[5] == spec_eval_category("network"@, p));
    assert(items[6] == spec_eval_category("audio"@, p));
    assert(items[7] == spec_eval_category("input"@, p));
    assert(items[8] == spec_eval_category("stability"@, p));
    assert(items[9] == spec_eval_category("services"@, p));
    assert(items[10] == spec_eval_category("security"@, p));
    assert(items[11] == spec_eval_category("platform"@, p));
    assert(items[12] == spec_eval_category("thermal"@, p));
    assert(items[13] == spec_eval_category("power"@, p));
    assert(items[0].name == "Latency"@);
    assert(items[1].name == "CPU"@);
    assert(items[2].name == "GPU"@);
    assert(items[3].name == "Memory"@);
    assert(items[4].name == "Storage"@);
    assert(items[5].name == "Network"@);
    assert(items[6].name == "Audio"@);
    assert(items[7].name == "Input"@);
    assert(items[8].name == "Stability"@);
    assert(items[9].name == "Services"@);
    assert(items[10].name == "Security"@);
    assert(items[11].name == "Platform"@);
    assert(items[12].name == "Thermal"@);
    assert(items[13].name == "Power"@);
    assert(forall|i: int, j: int|
        0 <= i < j < items.len() ==> items[i].name != items[j].name);
    lemma_merge_fresh(Seq::empty(), items);
    assert(Seq::<CategoryModel>::empty() + items =~= items);
    assert(spec_audit_categories(p, Option::None) == items);
    assert(items[0].checks.len() == 46);
    assert(items[1].checks.len() == 38);
    assert(items[2].checks.len() == 49);
    assert(items[3].checks.len() == 35);
    assert(items[4].checks.len() == 30);
    assert(items[5].checks.len() == 40);
    assert(items[6].checks.len() == 25);
    assert(items[7].checks.len() == 25);
    assert(items[8].checks.len() == 40);
    assert(items[9].checks.len() == 51);
    assert(items[10].checks.len() == 20);
    assert(items[11].checks.len() == 8);
    assert(items[12].checks.len() == 25);
    assert(items[13].checks.len() == 30);
}

/// The pairwise inequalities among the catalog's request keys and the
/// stored display names, from the literals' contents.
proof fn proof_catalog_key_facts()
    ensures
        "latency"@.len() == 7 && "cpu"@.len() == 3 && "gpu"@.len() == 3 && "memory"@.len() == 6
            && "storage"@.len() == 7 && "network"@.len() == 7 && "audio"@.len() == 5
            && "input"@.len() == 5 && "stability"@.len() == 9 && "services"@.len() == 8
            && "security"@.len() == 8 && "platform"@.len() == 8 && "thermal"@.len() == 7
            && "power"@.len() == 5,
        "latency"@[0] == 'l' && "storage"@[0] == 's' && "network"@[0] == 'n' && "thermal"@[0]
            == 't',
        "cpu"@[0] == 'c' && "gpu"@[0] == 'g',
        "audio"@[0] == 'a' && "input"@[0] == 'i' && "power"@[0] == 'p',
        "stability"@[0] == 's',
        "services"@[3] == 'v' && "security"@[3] == 'u' && "platform"@[0] == 'p'
            && "services"@[0] == 's' && "security"@[0] == 's',
        "Latency"@.len() == 7 && "CPU"@.len() == 3 && "GPU"@.len() == 3 && "Memory"@.len() == 6
            && "Storage"@.len() == 7 && "Network"@.len() == 7 && "Audio"@.len() == 5
            && "Input"@.len() == 5 && "Stability"@.len() == 9 && "Services"@.len() == 8
            && "Security"@.len() == 8 && "Platform"@.len() == 8 && "Thermal"@.len() == 7
            && "Power"@.len() == 5,
        "Latency"@[0] == 'L' && "Storage"@[0] == 'S' && "Network"@[0] == 'N' && "Thermal"@[0]
            == 'T',
        "CPU"@[0] == 'C' && "GPU"@[0] == 'G',
        "Audio"@[0] == 'A' && "Input"@[0] == 'I' && "Power"@[0] == 'P',
        "Stability"@[0] == 'S',
        "Services"@[2] == 'r' && "Security"@[2] == 'c' && "Platform"@[0] == 'P'
            && "Services"@[0] == 'S' && "Security"@[0] == 'S',
{
    reveal_strlit("latency");
    reveal_strlit("cpu");
    reveal_strlit("gpu");
    reveal_strlit("memory");
    reveal_strlit("storage");
    reveal_strlit("network");
    reveal_strlit("audio");
    reveal_strlit("input");
    reveal_strlit("stability");
    reveal_strlit("services");
    reveal_strlit("security");
    reveal_strlit("platform");
    reveal_strlit("thermal");
    reveal_strlit("power");
    reveal_strlit("Latency");
    reveal_strlit("CPU");
    reveal_strlit("GPU");
    reveal_strlit("Memory");
    reveal_strlit("Storage");
    reveal_strlit("Network");
    reveal_strlit("Audio");
    reveal_strlit("Input");
    reveal_strlit("Stability");
    reveal_strlit("Services");
    reveal_strlit("Security");
    reveal_strlit("Platform");
    reveal_strlit("Thermal");
    reveal_strlit("Power");
}

/// Requesting a name outside the catalog yields an empty-but-successful
/// result stored under the requested name itself: the store holds one
/// category with no checks and no error is raised.
pub proof fn lemma_unknown_category_empty(p: ProbeModel, name: Seq<char>)
    requires
        !catalog_keys().contains(name),
    ensures
        spec_audit_categories(p, Option::Some(name)) =~= Seq::<CategoryModel>::empty().push(
            CategoryModel { name: name, checks: Seq::empty() },
        ),
{
    let keys = catalog_keys();
    assert(forall|i: int| 0 <= i < keys.len() ==> keys[i] != name);
    assert(keys[0] == "latency"@);
    assert(keys[1] == "cpu"@);
    assert(keys[2] == "gpu"@);
    assert(keys[3] == "memory"@);
    assert(keys[4] == "storage"@);
    assert(keys[5] == "network"@);
    assert(keys[6] == "audio"@);
    assert(keys[7] == "input"@);
    assert(keys[8] == "stability"@);
    assert(keys[9] == "services"@);
    assert(keys[10] == "security"@);
    assert(keys[11] == "platform"@);
    assert(keys[12] == "thermal"@);
    assert(keys[13] == "power"@);
    let item = spec_eval_category(name, p);
    assert(item == (CategoryModel { name: name, checks: Seq::<CheckModel>::empty() }));
    let rs = requested_keys(Option::Some(name)).map_values(
        |n: Seq<char>| spec_eval_category(n, p),
    );
    assert(rs.len() == 1);
    assert(rs[0] == item);
    let base = insert_category(Seq::<CategoryModel>::empty(), item);
    assert(rs.drop_first().len() == 0);
    assert(merge_into(base, rs.drop_first()) == base);
    assert(merge_into(Seq::empty(), rs) == merge_into(base, rs.drop_first()));
    lemma_index_of_name(Seq::<CategoryModel>::empty(), name);
}

} // verus!
