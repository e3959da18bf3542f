//! The commands the tool accepts, as plain values.

use crate::template::TemplateType;
use vstd::prelude::*;

verus! {

/// Subcommands of `init`.
#[derive(Debug, Clone, Copy, PartialEq, Eq, Structural)]
pub enum InitCommands {
    /// Remove the template root and the persisted record.
    Delete,
}

/// Subcommands of `show`.
#[derive(Debug, Clone, Copy, PartialEq, Eq, Structural)]
pub enum ShowCommands {
    /// The record's location, version, template root and templates.
    Config,
    /// The registered template names.
    Templates,
}

/// Arguments of `init`.
#[derive(Debug)]
pub struct InitPushArgs {
    /// Base directory of the template root; the home directory when absent.
    pub path: Option<String>,
}

/// Arguments of `save`.
#[derive(Debug)]
pub struct SaveTemplateArgs {
    /// Name of the template.
    pub name: String,
    /// Directory whose contents are saved.
    pub path: String,
    /// Replace a template of that name.
    pub overwrite: bool,
}

/// Arguments of `load`.
#[derive(Debug)]
pub struct LoadTemplateArgs {
    /// Name of the template.
    pub name: String,
    /// Existing directory the template's contents are copied into.
    pub path: String,
}

/// Arguments of `remote get`.
#[derive(Debug)]
pub struct RemoteGetArgs {
    /// Address of the catalogue's git repository.
    pub url: String,
    /// Pass over listed templates whose directory is missing.
    pub skip_config_error: Option<bool>,
}

impl RemoteGetArgs {
    /// Whether missing templates are passed over; not unless asked.
    pub fn skip_missing(&self) -> (r: bool)
        ensures
            r == (self.skip_config_error == Some(true)),
    {
        match self.skip_config_error {
            Some(b) => b,
            None => false,
        }
    }
}

/// The type a save records: a local save unless stated.
pub fn save_type(template_type: Option<TemplateType>) -> (r: TemplateType)
    ensures
        r == match template_type {
            Some(t) => t,
            None => TemplateType::Default,
        },
{
    match template_type {
        Some(t) => t,
        None => TemplateType::Default,
    }
}

} // verus!
