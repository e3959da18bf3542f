//! Errors of the registry operations.

use vstd::prelude::*;

verus! {

/// What went wrong. Failures of the outside collaborators (file system,
/// config store, version control, manifest parsing, URI parsing) carry their
/// own message.
#[derive(Debug, PartialEq, Eq)]
pub enum AppError {
    Io(String),
    Confy(String),
    Git(String),
    Serde(String),
    Http(String),
    Uri(String),
    TemplateNotInitialized,
    TemplateAlreadyInitialized,
    TemplateDoesNotExist,
    TemplateAlreadyExists,
    TemplateInvalidConfig,
    InvalidPath,
    HomeDirectoryNotFound,
}

/// The one-line text shown to the user for an error.
pub open spec fn error_text(e: AppError) -> Seq<char> {
    match e {
        AppError::Io(m) => "IO Error: "@ + m@,
        AppError::Confy(m) => "Config Parser Error: "@ + m@,
        AppError::Git(m) => "Git Error: "@ + m@,
        AppError::Serde(m) => "Serde Error: "@ + m@,
        AppError::Http(m) => "HTTP Error: "@ + m@,
        AppError::Uri(m) => "URI Error: "@ + m@,
        AppError::TemplateNotInitialized => TEXT_NOT_INITIALIZED@,
        AppError::TemplateAlreadyInitialized => TEXT_ALREADY_INITIALIZED@,
        AppError::TemplateDoesNotExist => TEXT_DOES_NOT_EXIST@,
        AppError::TemplateAlreadyExists => TEXT_ALREADY_EXISTS@,
        AppError::TemplateInvalidConfig => TEXT_INVALID_CONFIG@,
        AppError::InvalidPath => TEXT_INVALID_PATH@,
        AppError::HomeDirectoryNotFound => TEXT_NO_HOME@,
    }
}

pub const TEXT_NOT_INITIALIZED: &'static str =
    "The template directory is not initialized. Please run `templater init` first.";

pub const TEXT_ALREADY_INITIALIZED: &'static str =
    "The template directory is already initialized. Please run `templater init delete` to delete.";

pub const TEXT_DOES_NOT_EXIST: &'static str =
    "The template does not exist. Please run `templater init delete` first then `templater init` to initialize or add a template with that name `templater save [NAME] [PATH]`";

pub const TEXT_ALREADY_EXISTS: &'static str =
    "Template already exists. Please run `templater save [NAME] [PATH] --overwrite` to overwrite.";

pub const TEXT_INVALID_CONFIG: &'static str = "Template configuration is invalid.";

pub const TEXT_INVALID_PATH: &'static str = "Invalid path provided.";

pub const TEXT_NO_HOME: &'static str = "Home directory not found. Specify template path manually.";

fn prefixed(prefix: &str, m: &String) -> (r: String)
    ensures
        r@ == prefix@ + m@,
{
    prefix.to_owned().concat(m.as_str())
}

impl AppError {
    /// The message shown to the user.
    pub fn message(&self) -> (r: String)
        ensures
            r@ == error_text(*self),
    {
        match self {
            AppError::Io(m) => prefixed("IO Error: ", m),
            AppError::Confy(m) => prefixed("Config Parser Error: ", m),
            AppError::Git(m) => prefixed("Git Error: ", m),
            AppError::Serde(m) => prefixed("Serde Error: ", m),
            AppError::Http(m) => prefixed("HTTP Error: ", m),
            AppError::Uri(m) => prefixed("URI Error: ", m),
            AppError::TemplateNotInitialized => TEXT_NOT_INITIALIZED.to_owned(),
            AppError::TemplateAlreadyInitialized => TEXT_ALREADY_INITIALIZED.to_owned(),
            AppError::TemplateDoesNotExist => TEXT_DOES_NOT_EXIST.to_owned(),
            AppError::TemplateAlreadyExists => TEXT_ALREADY_EXISTS.to_owned(),
            AppError::TemplateInvalidConfig => TEXT_INVALID_CONFIG.to_owned(),
            AppError::InvalidPath => TEXT_INVALID_PATH.to_owned(),
            AppError::HomeDirectoryNotFound => TEXT_NO_HOME.to_owned(),
        }
    }
}

} // verus!
