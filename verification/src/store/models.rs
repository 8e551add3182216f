//! Persisted document models, one module per document.

pub mod commands;
pub mod export;
pub mod hosts;
pub mod library;
pub mod preferences;
pub mod runtime_cache;
pub mod ui;
pub mod workspaces;
