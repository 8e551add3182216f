//! Verified model and logic of the rttx terminal client.

use vstd::prelude::*;

pub mod appearance;
pub mod bookmarks;
pub mod bookmarks_window;
pub mod color_scheme;
pub mod commands;
pub mod commands_window;
pub mod config;
pub mod connect_existing;
pub mod daemon;
pub mod daemon_bridge;
pub mod form_dialog;
pub mod host;
pub mod host_tag_picker;
pub mod ids;
pub mod leader;
pub mod listing;
pub mod logs;
pub mod order;
pub mod parameter_dialog;
pub mod places;
pub mod places_window;
pub mod preferences;
pub mod preferences_window;
pub mod runtime;
pub mod seqs;
pub mod session;
pub mod shortcuts;
pub mod sidebar;
pub mod store;
pub mod str_map;
pub mod text;

verus! {

/// Single-quote `value` for a POSIX shell.
pub fn shell_quote(value: &str) -> (s: String)
    ensures
        s@ == text::shell_quote(value@),
{
    text::shell_quote_exec(value)
}

} // verus!
