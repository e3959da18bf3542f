//! A personal template registry: a persisted record of where templates live
//! and which names are registered, with the decisions taken by the save, load,
//! remote-sync and consistency-guard operations.

pub mod commands;
pub mod config;
pub mod error;
pub mod laws;
pub mod names;
pub mod paths;
pub mod report;
pub mod store;
pub mod sync;
pub mod template;
