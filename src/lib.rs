//! A script execution engine for text transformations: script metadata,
//! per-call execution status and replacement resolution, module path
//! resolution, the worker/actor lifecycle and the script catalog.

pub mod actor;
pub mod catalog;
pub mod config;
pub mod edit;
pub mod executor;
pub mod metadata;
pub mod module;
pub mod script;
pub mod text;
