//! The template store: what saving and loading a template decide, around the
//! copies that the caller makes.

use crate::config::{strictly_sorted, InitialConfig};
use crate::error::AppError;
use crate::names::{name_less, name_lt, same_name};
use crate::paths::join_spec;
use crate::template::{Template, TemplateType};
use vstd::prelude::*;

verus! {

/// How a save proceeds once it may go ahead.
#[derive(Debug)]
pub struct SavePlan {
    /// The directory the template's files are copied into.
    pub destination: String,
    /// Whether that directory is removed first, so that nothing of an earlier
    /// copy stays.
    pub replace_existing: bool,
}

/// What saving `name` decides, given whether its directory exists already:
/// an existing template is replaced only when `overwrite` is set.
pub open spec fn save_decision(
    config: InitialConfig,
    name: Seq<char>,
    destination_exists: bool,
    overwrite: bool,
    r: Result<SavePlan, AppError>,
) -> bool {
    if destination_exists && !overwrite {
        r == Err::<SavePlan, AppError>(AppError::TemplateAlreadyExists)
    } else {
        r matches Ok(p) && p.destination@ == join_spec(config.template_absolute_path@, name)
            && p.replace_existing == destination_exists
    }
}

/// Decides a save of `name` into a record that passed the guard.
pub fn plan_save(config: &InitialConfig, name: &str, destination_exists: bool, overwrite: bool) -> (r:
    Result<SavePlan, AppError>)
    ensures
        save_decision(*config, name@, destination_exists, overwrite, r),
{
    if destination_exists && !overwrite {
        return Err(AppError::TemplateAlreadyExists);
    }
    Ok(SavePlan { destination: config.template_dir(name), replace_existing: destination_exists })
}

/// How the record changes when a save of `name` completes: the name is
/// registered with the given type, and nothing else changes.
pub open spec fn commit_spec(
    before: InitialConfig,
    after: InitialConfig,
    name: Seq<char>,
    template_type: TemplateType,
) -> bool {
    &&& after.wf()
    &&& after.names().to_set() == before.names().to_set().insert(name)
    &&& forall|i: int|
        0 <= i < after.entries().len() && after.entries()[i].0 == name
            ==> #[trigger] after.entries()[i].1 == template_type
    &&& after.template_absolute_path == before.template_absolute_path
    &&& after.initialized == before.initialized
    &&& after.version == before.version
}

/// Records a completed save of `name` in the registry.
pub fn commit_save(config: &mut InitialConfig, name: &str, template_type: TemplateType)
    requires
        old(config).wf(),
    ensures
        commit_spec(*old(config), *final(config), name@, template_type),
{
    let pos: usize = config.register_template(name, template_type);
    proof {
        let ns = final(config).names();
        assert forall|i: int|
            0 <= i < final(config).entries().len() && final(config).entries()[i].0
                == name@ implies #[trigger] final(config).entries()[i].1 == template_type by {
            if i != pos {
                assert(ns[i] == name@ && ns[pos as int] == name@);
                if i < pos {
                    assert(name_lt(ns[i], ns[pos as int]));
                } else {
                    assert(name_lt(ns[pos as int], ns[i]));
                }
                crate::names::lemma_name_lt_irreflexive(name@);
            }
        }
    }
}

/// What loading `name` decides: its directory when the name is registered.
pub open spec fn load_decision(config: InitialConfig, name: Seq<char>, r: Result<String, AppError>) -> bool {
    if config.names().contains(name) {
        r matches Ok(s) && s@ == join_spec(config.template_absolute_path@, name)
    } else {
        r == Err::<String, AppError>(AppError::TemplateDoesNotExist)
    }
}

/// Where loading `name` copies from: the template's directory, when the name
/// is registered.
pub fn plan_load(config: &InitialConfig, name: &str) -> (r: Result<String, AppError>)
    ensures
        load_decision(*config, name@, r),
{
    let mut i: usize = 0;
    while i < config.templates.len()
        invariant
            i <= config.templates@.len(),
            forall|k: int| 0 <= k < i ==> #[trigger] config.names()[k] != name@,
        decreases config.templates@.len() - i,
    {
        assert(config.names()[i as int] == config.templates@[i as int].name@);
        if same_name(config.templates[i].name.as_str(), name) {
            return Ok(config.template_dir(name));
        }
        i = i + 1;
    }
    Err(AppError::TemplateDoesNotExist)
}

impl InitialConfig {
    /// Whether the record satisfies its invariant.
    pub fn is_well_formed(&self) -> (r: bool)
        ensures
            r == self.wf(),
    {
        let n: usize = self.templates.len();
        if n == 0 {
            return true;
        }
        let mut i: usize = 1;
        while i < n
            invariant
                1 <= i <= n,
                n == self.templates@.len(),
                forall|a: int, b: int| 0 <= a < b < i ==> #[trigger] name_lt(self.names()[a], self.names()[b]),
            decreases n - i,
        {
            assert(self.names()[i - 1] == self.templates@[i - 1].name@);
            assert(self.names()[i as int] == self.templates@[i as int].name@);
            if !name_less(self.templates[i - 1].name.as_str(), self.templates[i].name.as_str()) {
                return false;
            }
            assert forall|a: int, b: int| 0 <= a < b < i + 1 implies #[trigger] name_lt(self.names()[a], self.names()[b]) by {
                if b == i && a < i - 1 {
                    crate::names::lemma_name_lt_transitive(self.names()[a], self.names()[i - 1], self.names()[b]);
                }
            }
            i = i + 1;
        }
        true
    }

    /// Restores the invariant of a record read from storage: the entries are
    /// sorted by name and each name kept once.
    pub fn normalize_templates(&mut self)
        ensures
            final(self).wf(),
            final(self).names().to_set() == old(self).names().to_set(),
            final(self).template_absolute_path == old(self).template_absolute_path,
            final(self).initialized == old(self).initialized,
            final(self).version == old(self).version,
    {
        let ghost listed = self.names();
        let mut pending: Vec<Template> = Vec::new();
        std::mem::swap(&mut pending, &mut self.templates);
        assert(self.names() =~= Seq::<Seq<char>>::empty());
        let mut i: usize = 0;
        while i < pending.len()
            invariant
                listed == pending@.map_values(|t: Template| t.name@),
                i <= pending@.len(),
                self.wf(),
                self.names().to_set() =~= listed.take(i as int).to_set(),
                self.template_absolute_path == old(self).template_absolute_path,
                self.initialized == old(self).initialized,
                self.version == old(self).version,
            decreases pending@.len() - i,
        {
            self.register_template(pending[i].name.as_str(), pending[i].template_type);
            assert(listed.take(i + 1) =~= listed.take(i as int).push(pending@[i as int].name@));
            proof {
                listed.take(i as int).lemma_push_to_set_commute(pending@[i as int].name@);
            }
            i = i + 1;
        }
        assert(listed.take(i as int) =~= listed);
        assert(old(self).names() =~= listed);
    }
}

} // verus!
