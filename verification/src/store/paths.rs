//! Injectable path roots for the client store.

use vstd::prelude::*;

use crate::text::{join_path, join_path_exec};

verus! {

/// Root directories for the three XDG-based storage locations.
///
/// Config holds durable user choices, state holds restorable application
/// state, and cache holds disposable runtime data.
#[derive(Debug, Clone, PartialEq, Eq)]
pub struct StorePaths {
    config: String,
    state: String,
    cache: String,
}

/// Mathematical model of [`StorePaths`].
pub struct StorePathsView {
    pub config: Seq<char>,
    pub state: Seq<char>,
    pub cache: Seq<char>,
}

impl View for StorePaths {
    type V = StorePathsView;

    closed spec fn view(&self) -> StorePathsView {
        StorePathsView { config: self.config@, state: self.state@, cache: self.cache@ }
    }
}

impl StorePaths {
    /// Paths with the given roots.
    pub fn new(config: String, state: String, cache: String) -> (p: Self)
        ensures
            p@ == (StorePathsView { config: config@, state: state@, cache: cache@ }),
    {
        StorePaths { config, state, cache }
    }

    /// The config root.
    pub fn config(&self) -> (s: &str)
        ensures
            s@ == self@.config,
    {
        self.config.as_str()
    }

    /// The state root.
    pub fn state(&self) -> (s: &str)
        ensures
            s@ == self@.state,
    {
        self.state.as_str()
    }

    /// The cache root.
    pub fn cache(&self) -> (s: &str)
        ensures
            s@ == self@.cache,
    {
        self.cache.as_str()
    }

    /// Path to the `backups/` directory under the state root.
    pub fn backups(&self) -> (s: String)
        ensures
            s@ == join_path(self@.state, "backups"@),
    {
        join_path_exec(self.state.as_str(), "backups")
    }
}

} // verus!
