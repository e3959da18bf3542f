//! Properties that relate several operations of the registry.

use crate::config::{default_root, guard_spec, init_outcome, strictly_sorted, InitialConfig};
use crate::error::AppError;
use crate::names::{lemma_name_lt_irreflexive, lemma_name_lt_total, lemma_name_lt_transitive};
use crate::store::{commit_spec, load_decision, save_decision, SavePlan};
use crate::sync::sync_spec;
use crate::template::TemplateType;
use vstd::prelude::*;

verus! {

/// Initialising twice without a path, under the same home directory, gives
/// the same template root both times, and both records are initialised.
pub proof fn lemma_default_init_idempotent(
    home: String,
    first: Result<InitialConfig, AppError>,
    second: Result<InitialConfig, AppError>,
)
    requires
        init_outcome(None, Some(home), first),
        init_outcome(None, Some(home), second),
    ensures
        first matches Ok(a) && second matches Ok(b) && a.template_absolute_path@
            == b.template_absolute_path@ && a.template_absolute_path@ == default_root(home@)
            && a.initialized && b.initialized,
{
}

/// A template that was saved can be loaded, and loading reads the directory
/// that the save wrote.
pub proof fn lemma_save_then_load(
    before: InitialConfig,
    after: InitialConfig,
    name: Seq<char>,
    destination_exists: bool,
    overwrite: bool,
    template_type: TemplateType,
    plan: SavePlan,
    loaded: Result<String, AppError>,
)
    requires
        save_decision(before, name, destination_exists, overwrite, Ok(plan)),
        commit_spec(before, after, name, template_type),
        load_decision(after, name, loaded),
    ensures
        loaded matches Ok(source) && source@ == plan.destination@,
{
    assert(after.names().to_set().contains(name));
}

/// Once a template's directory exists, saving it again without `overwrite`
/// fails with `TemplateAlreadyExists`; with `overwrite` the save goes ahead
/// and removes the old directory first, so nothing of the old copy is merged
/// into the new one.
pub proof fn lemma_overwrite_semantics(
    config: InitialConfig,
    name: Seq<char>,
    plain: Result<SavePlan, AppError>,
    forced: Result<SavePlan, AppError>,
)
    requires
        save_decision(config, name, true, false, plain),
        save_decision(config, name, true, true, forced),
    ensures
        plain == Err::<SavePlan, AppError>(AppError::TemplateAlreadyExists),
        forced matches Ok(p) && p.replace_existing,
{
}

/// Two sorted sequences of unique names that hold the same names are equal.
pub proof fn lemma_sorted_names_determined(a: Seq<Seq<char>>, b: Seq<Seq<char>>)
    requires
        strictly_sorted(a),
        strictly_sorted(b),
        a.to_set() == b.to_set(),
    ensures
        a == b,
    decreases a.len(),
{
    if a.len() == 0 || b.len() == 0 {
        if a.len() > 0 {
            assert(a.to_set().contains(a[0]));
        }
        if b.len() > 0 {
            assert(b.to_set().contains(b[0]));
        }
        assert(a =~= b);
    } else {
        if a[0] != b[0] {
            lemma_name_lt_total(a[0], b[0]);
            assert(b.to_set().contains(a[0]) && a.to_set().contains(b[0]));
            let k = choose|k: int| 0 <= k < b.len() && b[k] == a[0];
            let j = choose|j: int| 0 <= j < a.len() && a[j] == b[0];
            assert(k > 0 && j > 0);
            assert(crate::names::name_lt(b[0], b[k]));
            assert(crate::names::name_lt(a[0], a[j]));
            if crate::names::name_lt(a[0], b[0]) {
                lemma_name_lt_transitive(a[0], b[0], b[k]);
            } else {
                lemma_name_lt_transitive(b[0], a[0], a[j]);
            }
            lemma_name_lt_irreflexive(a[0]);
            lemma_name_lt_irreflexive(b[0]);
        }
        let a1 = a.drop_first();
        let b1 = b.drop_first();
        assert(strictly_sorted(a1)) by {
            assert forall|i: int, j: int| 0 <= i < j < a1.len() implies #[trigger] crate::names::name_lt(a1[i], a1[j]) by {
                assert(crate::names::name_lt(a[i + 1], a[j + 1]));
            }
        }
        assert(strictly_sorted(b1)) by {
            assert forall|i: int, j: int| 0 <= i < j < b1.len() implies #[trigger] crate::names::name_lt(b1[i], b1[j]) by {
                assert(crate::names::name_lt(b[i + 1], b[j + 1]));
            }
        }
        assert(a1.to_set() =~= b1.to_set()) by {
            assert forall|n| a1.to_set().contains(n) implies b1.to_set().contains(n) by {
                let i = choose|i: int| 0 <= i < a1.len() && a1[i] == n;
                assert(crate::names::name_lt(a[0], a[i + 1]));
                lemma_name_lt_irreflexive(a[0]);
                assert(b.to_set().contains(n));
                let k = choose|k: int| 0 <= k < b.len() && b[k] == n;
                assert(k != 0);
                assert(b1[k - 1] == n);
            }
            assert forall|n| b1.to_set().contains(n) implies a1.to_set().contains(n) by {
                let i = choose|i: int| 0 <= i < b1.len() && b1[i] == n;
                assert(crate::names::name_lt(b[0], b[i + 1]));
                lemma_name_lt_irreflexive(b[0]);
                assert(a.to_set().contains(n));
                let k = choose|k: int| 0 <= k < a.len() && a[k] == n;
                assert(k != 0);
                assert(a1[k - 1] == n);
            }
        }
        lemma_sorted_names_determined(a1, b1);
        assert(a =~= seq![a[0]] + a1);
        assert(b =~= seq![b[0]] + b1);
    }
}

/// The registry's list of names depends only on which names were saved, not
/// on the order of the saves: two well-formed records with the same names
/// list them identically, in name order and without duplicates.
pub proof fn lemma_registry_order_independent(first: InitialConfig, second: InitialConfig)
    requires
        first.wf(),
        second.wf(),
        first.names().to_set() == second.names().to_set(),
    ensures
        first.names() == second.names(),
{
    lemma_sorted_names_determined(first.names(), second.names());
}

/// A record that is not marked initialised is refused by the guard, whether
/// or not its template root exists; the caller then removes its storage.
pub proof fn lemma_guard_refuses_uninitialized(config: InitialConfig, root_exists: bool)
    requires
        !config.initialized,
    ensures
        guard_spec(config, root_exists) == Err::<(), AppError>(AppError::TemplateNotInitialized),
{
}

/// With missing sources skipped, a sync never fails, and it saves exactly the
/// listed templates whose source exists.
pub proof fn lemma_sync_skipping_saves_present(manifest: Seq<Seq<char>>, present: Seq<bool>)
    requires
        present.len() == manifest.len(),
    ensures
        !sync_spec(manifest, present, true).1,
        forall|n: Seq<char>|
            #[trigger] sync_spec(manifest, present, true).0.contains(n) <==> exists|i: int|
                0 <= i < manifest.len() && manifest[i] == n && present[i],
    decreases manifest.len(),
{
    if manifest.len() > 0 {
        let m1 = manifest.drop_first();
        let p1 = present.drop_first();
        lemma_sync_skipping_saves_present(m1, p1);
        let r = sync_spec(manifest, present, true).0;
        let r1 = sync_spec(m1, p1, true).0;
        assert forall|n: Seq<char>| #[trigger] r.contains(n) <==> exists|i: int|
            0 <= i < manifest.len() && manifest[i] == n && present[i] by {
            if r.contains(n) {
                if present[0] && n == manifest[0] {
                    assert(manifest[0] == n && present[0]);
                } else {
                    if present[0] {
                        let k = choose|k: int| 0 <= k < r.len() && r[k] == n;
                        assert(k > 0);
                        assert(r1[k - 1] == n);
                    }
                    assert(r1.contains(n));
                    let i = choose|i: int| 0 <= i < m1.len() && m1[i] == n && p1[i];
                    assert(manifest[i + 1] == n && present[i + 1]);
                }
            }
            if exists|i: int| 0 <= i < manifest.len() && manifest[i] == n && present[i] {
                let i = choose|i: int| 0 <= i < manifest.len() && manifest[i] == n && present[i];
                if i == 0 {
                    assert(r[0] == n);
                } else {
                    assert(m1[i - 1] == n && p1[i - 1]);
                    assert(r1.contains(n));
                    let k = choose|k: int| 0 <= k < r1.len() && r1[k] == n;
                    if present[0] {
                        assert(r[k + 1] == n);
                    } else {
                        assert(r[k] == n);
                    }
                }
            }
        }
    }
}

/// Without skipping, a sync whose first missing source is at `k` saves the
/// templates listed before it, in order, and then fails with
/// `TemplateDoesNotExist`: what was saved stays saved.
pub proof fn lemma_sync_strict_stops_at_missing(
    manifest: Seq<Seq<char>>,
    present: Seq<bool>,
    k: int,
)
    requires
        present.len() == manifest.len(),
        0 <= k < manifest.len(),
        !present[k],
        forall|i: int| 0 <= i < k ==> present[i],
    ensures
        sync_spec(manifest, present, false) == (manifest.take(k), true),
    decreases k,
{
    if k > 0 {
        let m1 = manifest.drop_first();
        let p1 = present.drop_first();
        assert(present[0]);
        assert forall|i: int| 0 <= i < k - 1 implies p1[i] by {
            assert(present[i + 1]);
        }
        lemma_sync_strict_stops_at_missing(m1, p1, k - 1);
        assert(seq![manifest[0]] + m1.take(k - 1) =~= manifest.take(k));
    } else {
        assert(manifest.take(0) =~= Seq::<Seq<char>>::empty());
    }
}

} // verus!
