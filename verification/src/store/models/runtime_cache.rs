//! Runtime cache document model (`runtime-cache.json`).

use vstd::prelude::*;

use crate::store::envelope::Schema;
use crate::str_map::StrSet;

verus! {

pub const SCHEMA: Schema = Schema::RuntimeCache;
pub const CURRENT_VERSION: u32 = 1;

/// Disposable runtime data: the runtimes the user dismissed.
#[derive(Debug, Clone, PartialEq, Eq)]
pub struct RuntimeCache {
    pub dismissed_runtime_ids: StrSet,
}

impl Default for RuntimeCache {
    fn default() -> (c: Self)
        ensures
            c.dismissed_runtime_ids@.dom() == Set::<Seq<char>>::empty(),
    {
        RuntimeCache { dismissed_runtime_ids: StrSet::new() }
    }
}

} // verus!
