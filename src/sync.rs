//! Remote sync: which templates of a fetched catalogue are saved, and when
//! the import stops. The import is deliberately not atomic: templates saved
//! before a failure stay registered.

use crate::error::AppError;
use vstd::prelude::*;

verus! {

/// The manifest at the root of a remote catalogue.
#[derive(Debug)]
pub struct RemoteTemplateConfig {
    pub templates: Vec<String>,
}

/// The course of one sync over a catalogue.
#[derive(Debug)]
pub struct SyncPlan {
    /// The templates to save, in manifest order.
    pub to_save: Vec<String>,
    /// The error that ends the sync once those saves are made, if any.
    pub failure: Option<AppError>,
}

/// The names saved by a sync over `manifest`, where `present[i]` tells
/// whether the source directory of `manifest[i]` exists, and whether the sync
/// then fails because a source is missing.
pub open spec fn sync_spec(manifest: Seq<Seq<char>>, present: Seq<bool>, skip_missing: bool) -> (
    Seq<Seq<char>>,
    bool,
)
    decreases manifest.len(),
{
    if manifest.len() == 0 || present.len() == 0 {
        (Seq::empty(), false)
    } else if !present[0] {
        if skip_missing {
            sync_spec(manifest.drop_first(), present.drop_first(), skip_missing)
        } else {
            (Seq::empty(), true)
        }
    } else {
        let rest = sync_spec(manifest.drop_first(), present.drop_first(), skip_missing);
        (seq![manifest[0]] + rest.0, rest.1)
    }
}

/// Plans a sync: each listed template whose source exists is saved in order;
/// a missing source is passed over when `skip_missing` is set, and otherwise
/// stops the sync with `TemplateDoesNotExist` after the saves before it.
pub fn plan_sync(manifest: &Vec<String>, present: &Vec<bool>, skip_missing: bool) -> (r: SyncPlan)
    requires
        present@.len() == manifest@.len(),
    ensures
        r.to_save@.map_values(|s: String| s@) == sync_spec(
            manifest@.map_values(|s: String| s@),
            present@,
            skip_missing,
        ).0,
        r.failure == if sync_spec(manifest@.map_values(|s: String| s@), present@, skip_missing).1 {
            Some(AppError::TemplateDoesNotExist)
        } else {
            None::<AppError>
        },
{
    let ghost m = manifest@.map_values(|s: String| s@);
    let ghost p = present@;
    let mut to_save: Vec<String> = Vec::new();
    let mut i: usize = 0;
    assert(m.skip(0) =~= m);
    assert(p.skip(0) =~= p);
    assert(to_save@.map_values(|s: String| s@) + sync_spec(m, p, skip_missing).0 =~= sync_spec(m, p, skip_missing).0);
    while i < manifest.len()
        invariant
            m == manifest@.map_values(|s: String| s@),
            p == present@,
            p.len() == m.len(),
            i <= m.len(),
            sync_spec(m, p, skip_missing) == ({
                let rest = sync_spec(m.skip(i as int), p.skip(i as int), skip_missing);
                (to_save@.map_values(|s: String| s@) + rest.0, rest.1)
            }),
        decreases m.len() - i,
    {
        let ghost rest_m = m.skip(i as int);
        let ghost rest_p = p.skip(i as int);
        assert(rest_m.drop_first() =~= m.skip(i + 1));
        assert(rest_p.drop_first() =~= p.skip(i + 1));
        if !present[i] {
            if !skip_missing {
                return SyncPlan { to_save, failure: Some(AppError::TemplateDoesNotExist) };
            }
        } else {
            let ghost before = to_save@;
            let n = manifest[i].as_str().to_owned();
            to_save.push(n);
            assert(to_save@.map_values(|s: String| s@) =~= before.map_values(|s: String| s@) + seq![n@]);
            assert(rest_m[0] == n@);
        }
        i = i + 1;
    }
    proof {
        assert(m.skip(i as int).len() == 0);
        assert(to_save@.map_values(|s: String| s@) + Seq::<Seq<char>>::empty() =~= to_save@.map_values(|s: String| s@));
    }
    SyncPlan { to_save, failure: None }
}

/// The outcome of one save within a sync: a template that exists already is
/// passed over; any other failure ends the sync.
pub fn sync_save_outcome(result: Result<(), AppError>) -> (r: Result<(), AppError>)
    ensures
        r == match result {
            Err(AppError::TemplateAlreadyExists) => Ok::<(), AppError>(()),
            other => other,
        },
{
    match &result {
        Err(AppError::TemplateAlreadyExists) => Ok(()),
        _ => result,
    }
}

} // verus!
