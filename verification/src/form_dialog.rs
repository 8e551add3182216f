//! Values read from the text fields of the editor forms.

use vstd::prelude::*;

use crate::text::{non_empty, non_empty_exec, owned};

verus! {

/// The value of a text field: its trimmed text, or `None` when blank.
pub fn entry_value(text: &str) -> (r: Option<String>)
    ensures
        match r {
            Some(v) => non_empty(Some(text@)) == Some(v@),
            None => non_empty(Some(text@)) is None,
        },
{
    match non_empty_exec(Some(text)) {
        Some(t) => Some(owned(t)),
        None => None,
    }
}

} // verus!
