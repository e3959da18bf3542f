//! The registry record: where templates live, whether the registry was set
//! up, and which names are registered, kept sorted and free of duplicates.

use crate::error::AppError;
use crate::names::{
    lemma_name_lt_total, lemma_name_lt_transitive, name_less, name_lt, same_name,
};
use crate::paths::{
    join_path, join_spec, APP_VERSION_STRING, TEMPLATE_DEFAULT_PATH, TEMPLATE_PATH, TEMP_FOLDER_NAME,
};
use crate::template::{Template, TemplateType};
use vstd::prelude::*;

verus! {

/// Every name comes strictly before every later one.
pub open spec fn strictly_sorted(s: Seq<Seq<char>>) -> bool {
    forall|i: int, j: int| 0 <= i < j < s.len() ==> #[trigger] name_lt(s[i], s[j])
}

/// The persisted registry record.
#[derive(Debug)]
pub struct InitialConfig {
    pub version: String,
    pub template_absolute_path: String,
    pub initialized: bool,
    pub templates: Vec<Template>,
}

impl InitialConfig {
    /// The registered entries, as (name, type) pairs, in stored order.
    pub open spec fn entries(&self) -> Seq<(Seq<char>, TemplateType)> {
        self.templates@.map_values(|t: Template| (t.name@, t.template_type))
    }

    /// The registered names, in stored order.
    pub open spec fn names(&self) -> Seq<Seq<char>> {
        self.entries().map_values(|e: (Seq<char>, TemplateType)| e.0)
    }

    /// The record's invariant: names are sorted and unique.
    pub open spec fn wf(&self) -> bool {
        strictly_sorted(self.names())
    }

    /// A record for the template root `<base>/templater/templates`, not yet
    /// initialised and with no templates.
    pub fn new(version: &str, template_absolute_path: &str) -> (r: Result<Self, AppError>)
        ensures
            r matches Ok(c) && c.version@ == version@ && c.template_absolute_path@ == join_spec(
                template_absolute_path@,
                TEMPLATE_PATH@,
            ) && !c.initialized && c.templates@.len() == 0,
    {
        Ok(
            Self {
                version: version.to_owned(),
                template_absolute_path: join_path(template_absolute_path, TEMPLATE_PATH),
                initialized: false,
                templates: Vec::new(),
            },
        )
    }

    /// Registers `name` with the given type, keeping the names sorted and
    /// unique: an entry of that name is replaced, otherwise one is inserted
    /// at its place in the order. Returns that place.
    pub fn register_template(&mut self, name: &str, template_type: TemplateType) -> (pos: usize)
        requires
            old(self).wf(),
        ensures
            final(self).wf(),
            pos <= old(self).entries().len(),
            final(self).entries() == if pos < old(self).entries().len() && old(
                self,
            ).names()[pos as int] == name@ {
                old(self).entries().update(pos as int, (name@, template_type))
            } else {
                old(self).entries().insert(pos as int, (name@, template_type))
            },
            final(self).names().to_set() == old(self).names().to_set().insert(name@),
            final(self).version == old(self).version,
            final(self).template_absolute_path == old(self).template_absolute_path,
            final(self).initialized == old(self).initialized,
    {
        let ghost old_names = self.names();
        let mut i: usize = 0;
        while i < self.templates.len() && name_less(self.templates[i].name.as_str(), name)
            invariant
                self.names() == old_names,
                strictly_sorted(old_names),
                i <= old_names.len(),
                forall|k: int| 0 <= k < i ==> #[trigger] name_lt(old_names[k], name@),
            decreases old_names.len() - i,
        {
            i = i + 1;
        }
        let ghost old_entries = self.entries();
        let entry = Template::new(name, template_type);
        if i < self.templates.len() && same_name(self.templates[i].name.as_str(), name) {
            self.templates.set(i, entry);
            assert(self.entries() =~= old_entries.update(i as int, (name@, template_type)));
            assert(self.names() =~= old_names);
            assert(old_names[i as int] == name@);
            assert(old_names.to_set().contains(name@));
            assert(self.names().to_set() =~= old_names.to_set().insert(name@));
        } else {
            proof {
                if i < old_names.len() {
                    lemma_name_lt_total(old_names[i as int], name@);
                }
            }
            self.templates.insert(i, entry);
            assert(self.entries() =~= old_entries.insert(i as int, (name@, template_type)));
            assert(self.names() =~= old_names.insert(i as int, name@));
            let ghost ns = self.names();
            assert forall|a: int, b: int| 0 <= a < b < ns.len() implies #[trigger] name_lt(ns[a], ns[b]) by {
                if b == i {
                    assert(name_lt(old_names[a], name@));
                } else if a == i {
                    assert(name_lt(name@, old_names[i as int]));
                    if b - 1 > i {
                        assert(name_lt(old_names[i as int], old_names[b - 1]));
                        lemma_name_lt_transitive(name@, old_names[i as int], old_names[b - 1]);
                    }
                } else if a < i && b > i {
                    assert(name_lt(old_names[a], old_names[b - 1]));
                } else if a > i {
                    assert(name_lt(old_names[a - 1], old_names[b - 1]));
                }
            }
            assert(self.names().to_set() =~= old_names.to_set().insert(name@)) by {
                assert forall|n| old_names.to_set().insert(name@).contains(n) implies ns.to_set().contains(n) by {
                    if n != name@ {
                        let k = choose|k: int| 0 <= k < old_names.len() && old_names[k] == n;
                        if k < i {
                            assert(ns[k] == n);
                        } else {
                            assert(ns[k + 1] == n);
                        }
                    } else {
                        assert(ns[i as int] == n);
                    }
                }
            }
        }
        i
    }

    /// A record is fresh when it carries the given version and template root,
    /// is marked as stated, and has no templates.
    pub open spec fn is_fresh(&self, version: Seq<char>, root: Seq<char>, initialized: bool) -> bool {
        &&& self.version@ == version
        &&& self.template_absolute_path@ == root
        &&& self.initialized == initialized
        &&& self.templates@.len() == 0
    }

    /// The record for the default template root under the given home
    /// directory, not yet initialised; without a home directory, none.
    pub fn default_value_from(home: Option<String>) -> (r: Result<Self, AppError>)
        ensures
            match home {
                None => r == Err::<Self, AppError>(AppError::HomeDirectoryNotFound),
                Some(h) => r matches Ok(c) && c.is_fresh(
                    APP_VERSION_STRING@,
                    default_root(h@),
                    false,
                ),
            },
    {
        match home {
            None => Err(AppError::HomeDirectoryNotFound),
            Some(h) => Ok(
                Self {
                    version: APP_VERSION_STRING.to_owned(),
                    template_absolute_path: join_path(h.as_str(), TEMPLATE_DEFAULT_PATH),
                    initialized: false,
                    templates: Vec::new(),
                },
            ),
        }
    }

    /// The record for the default template root under the current user's
    /// home directory, not yet initialised.
    pub fn default_value() -> (r: Result<Self, AppError>)
        ensures
            r matches Ok(c) ==> c.version@ == APP_VERSION_STRING@ && !c.initialized
                && c.templates@.len() == 0 && exists|h: Seq<char>|
                c.template_absolute_path@ == #[trigger] default_root(h),
            r matches Err(e) ==> e == AppError::HomeDirectoryNotFound,
    {
        Self::default_value_from(home_directory())
    }

    /// The directory that holds the template `name`.
    pub fn template_dir(&self, name: &str) -> (r: String)
        ensures
            r@ == join_spec(self.template_absolute_path@, name@),
    {
        join_path(self.template_absolute_path.as_str(), name)
    }

    /// The scratch directory that holds a remote clone.
    pub fn temp_dir(&self) -> (r: String)
        ensures
            r@ == join_spec(self.template_absolute_path@, TEMP_FOLDER_NAME@),
    {
        join_path(self.template_absolute_path.as_str(), TEMP_FOLDER_NAME)
    }

    /// The registered names, in order.
    pub fn template_names(&self) -> (r: Vec<String>)
        ensures
            r@.map_values(|s: String| s@) == self.names(),
    {
        let mut r: Vec<String> = Vec::new();
        let mut i: usize = 0;
        while i < self.templates.len()
            invariant
                i <= self.templates@.len(),
                r@.map_values(|s: String| s@) =~= self.names().take(i as int),
            decreases self.templates@.len() - i,
        {
            assert(self.names()[i as int] == self.templates@[i as int].name@);
            let ghost before = r@;
            let n = self.templates[i].name.as_str().to_owned();
            r.push(n);
            assert(r@.map_values(|s: String| s@) =~= before.map_values(|s: String| s@).push(n@));
            i = i + 1;
            assert(r@.map_values(|s: String| s@) =~= self.names().take(i as int));
        }
        assert(self.names().take(i as int) =~= self.names());
        r
    }
}

/// The default template root under a home directory.
pub open spec fn default_root(home: Seq<char>) -> Seq<char> {
    join_spec(home, TEMPLATE_DEFAULT_PATH@)
}

/// The template root under a user-supplied base directory.
pub open spec fn manual_root(base: Seq<char>) -> Seq<char> {
    join_spec(base, TEMPLATE_PATH@)
}

/// Relies on `home::home_dir`: the current user's home directory, if one can
/// be found. What it returns depends on the environment, so nothing is
/// promised of it.
#[verifier::external_body]
fn home_directory() -> (r: Option<String>) {
    match home::home_dir() {
        Some(p) => Some(p.to_string_lossy().into_owned()),
        None => None,
    }
}

/// The initialised record for the template root under `base`. The caller
/// persists it once that directory exists.
pub fn create_manual_config(template_absolute_path: &str) -> (r: Result<InitialConfig, AppError>)
    ensures
        r matches Ok(c) && c.is_fresh(APP_VERSION_STRING@, manual_root(template_absolute_path@), true),
{
    let mut c = match InitialConfig::new(APP_VERSION_STRING, template_absolute_path) {
        Ok(c) => c,
        Err(e) => return Err(e),
    };
    c.initialized = true;
    Ok(c)
}

/// The initialised record for the default template root under `home`.
pub fn create_default_config_from(home: Option<String>) -> (r: Result<InitialConfig, AppError>)
    ensures
        match home {
            None => r == Err::<InitialConfig, AppError>(AppError::HomeDirectoryNotFound),
            Some(h) => r matches Ok(c) && c.is_fresh(APP_VERSION_STRING@, default_root(h@), true),
        },
{
    let mut c = match InitialConfig::default_value_from(home) {
        Ok(c) => c,
        Err(e) => return Err(e),
    };
    c.initialized = true;
    Ok(c)
}

/// The initialised record for the default template root under the current
/// user's home directory.
pub fn create_default_config() -> (r: Result<InitialConfig, AppError>)
    ensures
        r matches Ok(c) ==> c.version@ == APP_VERSION_STRING@ && c.initialized
            && c.templates@.len() == 0 && exists|h: Seq<char>|
            c.template_absolute_path@ == #[trigger] default_root(h),
        r matches Err(e) ==> e == AppError::HomeDirectoryNotFound,
{
    create_default_config_from(home_directory())
}

/// What `init` records: the root under the given path, or else the default
/// root under the home directory.
pub open spec fn init_outcome(path: Option<String>, home: Option<String>, r: Result<
    InitialConfig,
    AppError,
>) -> bool {
    match path {
        Some(p) => r matches Ok(c) && c.is_fresh(APP_VERSION_STRING@, manual_root(p@), true),
        None => match home {
            None => r == Err::<InitialConfig, AppError>(AppError::HomeDirectoryNotFound),
            Some(h) => r matches Ok(c) && c.is_fresh(APP_VERSION_STRING@, default_root(h@), true),
        },
    }
}

/// The record that `init` persists, given the home directory.
pub fn init_config_from(path: &Option<String>, home: Option<String>) -> (r: Result<
    InitialConfig,
    AppError,
>)
    ensures
        init_outcome(*path, home, r),
{
    match path {
        Some(p) => create_manual_config(p.as_str()),
        None => create_default_config_from(home),
    }
}

/// The record that `init` persists; without a path, the home directory is
/// looked up.
pub fn init_config(path: &Option<String>) -> (r: Result<InitialConfig, AppError>)
    ensures
        path matches Some(p) ==> (r matches Ok(c) && c.is_fresh(
            APP_VERSION_STRING@,
            manual_root(p@),
            true,
        )),
        path is None ==> (r matches Ok(c) ==> c.version@ == APP_VERSION_STRING@ && c.initialized
            && c.templates@.len() == 0 && exists|h: Seq<char>|
            c.template_absolute_path@ == #[trigger] default_root(h)),
        r matches Err(e) ==> path is None && e == AppError::HomeDirectoryNotFound,
{
    match path {
        Some(p) => create_manual_config(p.as_str()),
        None => create_default_config(),
    }
}

/// The guard's verdict on a record whose template root does or does not exist.
pub open spec fn guard_spec(config: InitialConfig, root_exists: bool) -> Result<(), AppError> {
    if config.initialized && root_exists {
        Ok(())
    } else {
        Err(AppError::TemplateNotInitialized)
    }
}

/// The consistency guard: a record may be used only when it is marked
/// initialised and its template root exists. On an error the caller rolls
/// the registry back by removing the record's storage.
pub fn check_config(config: &InitialConfig, root_exists: bool) -> (r: Result<(), AppError>)
    ensures
        r == guard_spec(*config, root_exists),
{
    if !config.initialized {
        return Err(AppError::TemplateNotInitialized);
    }
    if !root_exists {
        return Err(AppError::TemplateNotInitialized);
    }
    Ok(())
}

} // verus!
