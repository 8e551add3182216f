//! Persisted workspace (session) model: layout tree, pane recovery recipes
//! and per-session state.

pub mod layout;
pub mod recovery;
pub mod state;
