//! The client store's file layout and the decisions it takes on loading.

use vstd::prelude::*;

use super::io::LoadOutcome;
use super::models::preferences::{migrated_names, same_but_names, PreferencesV1, CURRENT_VERSION};
use super::paths::StorePaths;
use crate::text::{join_path, join_path_exec};

verus! {

/// Client store providing typed document persistence: its path roots.
#[derive(Debug, Clone, PartialEq, Eq)]
pub struct ClientStore {
    paths: StorePaths,
}

impl ClientStore {
    /// A store over the given roots.
    pub fn new(paths: StorePaths) -> (s: Self)
        ensures
            s.roots() == paths,
    {
        ClientStore { paths }
    }

    /// The roots of the store.
    pub closed spec fn roots(&self) -> StorePaths {
        self.paths
    }

    /// The roots of the store.
    pub fn paths(&self) -> (p: &StorePaths)
        ensures
            p == self.roots(),
    {
        &self.paths
    }

    /// `preferences.json` under the config root.
    pub fn preferences_file(&self) -> (p: String)
        ensures
            p@ == join_path(self.roots()@.config, "preferences.json"@),
    {
        join_path_exec(self.paths.config(), "preferences.json")
    }

    /// `hosts.json` under the config root.
    pub fn hosts_file(&self) -> (p: String)
        ensures
            p@ == join_path(self.roots()@.config, "hosts.json"@),
    {
        join_path_exec(self.paths.config(), "hosts.json")
    }

    /// `library.json` under the config root.
    pub fn library_file(&self) -> (p: String)
        ensures
            p@ == join_path(self.roots()@.config, "library.json"@),
    {
        join_path_exec(self.paths.config(), "library.json")
    }

    /// `workspaces.json` under the state root.
    pub fn workspaces_file(&self) -> (p: String)
        ensures
            p@ == join_path(self.roots()@.state, "workspaces.json"@),
    {
        join_path_exec(self.paths.state(), "workspaces.json")
    }

    /// `ui.json` under the state root.
    pub fn ui_file(&self) -> (p: String)
        ensures
            p@ == join_path(self.roots()@.state, "ui.json"@),
    {
        join_path_exec(self.paths.state(), "ui.json")
    }

    /// `runtime-cache.json` under the cache root.
    pub fn runtime_cache_file(&self) -> (p: String)
        ensures
            p@ == join_path(self.roots()@.cache, "runtime-cache.json"@),
    {
        join_path_exec(self.paths.cache(), "runtime-cache.json")
    }
}

/// Whether a preferences document stored at `stored_version` predates the
/// current version.
pub open spec fn predates_current(stored_version: Option<u32>) -> bool {
    stored_version matches Some(v) && v < CURRENT_VERSION
}

/// Migrate a loaded preferences document written at an older version:
/// its palette names are repaired, and the result says whether the
/// document must be rewritten at the current version. Other outcomes, and
/// documents already current, pass through unchanged.
pub fn migrate_loaded_preferences(outcome: LoadOutcome<PreferencesV1>, stored_version: Option<u32>) -> (r: (
    LoadOutcome<PreferencesV1>,
    bool,
))
    ensures
        r.1 == (predates_current(stored_version) && (outcome is Loaded || outcome is Recovered)),
        !r.1 ==> r.0 == outcome,
        r.1 ==> match (outcome, r.0) {
            (LoadOutcome::Loaded(a), LoadOutcome::Loaded(b)) => (b.light_color_scheme@, b.dark_color_scheme@)
                == migrated_names(a.light_color_scheme@, a.dark_color_scheme@) && same_but_names(b, a),
            (LoadOutcome::Recovered(a), LoadOutcome::Recovered(b)) => (b.light_color_scheme@, b.dark_color_scheme@)
                == migrated_names(a.light_color_scheme@, a.dark_color_scheme@) && same_but_names(b, a),
            _ => false,
        },
{
    let older = match stored_version {
        Some(v) => v < CURRENT_VERSION,
        None => false,
    };
    if !older {
        return (outcome, false);
    }
    match outcome {
        LoadOutcome::Loaded(mut doc) => {
            doc.migrate_color_scheme_names();
            (LoadOutcome::Loaded(doc), true)
        },
        LoadOutcome::Recovered(mut doc) => {
            doc.migrate_color_scheme_names();
            (LoadOutcome::Recovered(doc), true)
        },
        other => (other, false),
    }
}

} // verus!
