//! Client-side document store: versioned envelopes, the load protocol's
//! decisions, injectable path roots, and the persisted document models.
//!
//! Every persisted JSON document uses a self-describing envelope with
//! `schema`, `version`, and diagnostic fields. Reading and writing files is
//! left to the caller; what to make of what was read is decided here.

pub mod client;
pub mod envelope;
pub mod io;
pub mod models;
pub mod paths;
