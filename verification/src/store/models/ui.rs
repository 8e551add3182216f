//! Window layout document model (`ui.json`).

use vstd::prelude::*;

use crate::store::envelope::Schema;

verus! {

pub const SCHEMA: Schema = Schema::Ui;
pub const CURRENT_VERSION: u32 = 1;

/// Window geometry and sidebar state.
#[derive(Debug, Clone, PartialEq, Eq)]
pub struct UiState {
    pub window_width: i32,
    pub window_height: i32,
    pub is_maximized: bool,
    pub left_sidebar_width: i32,
    pub right_sidebar_width: i32,
    pub left_sidebar_visible: bool,
    pub right_sidebar_visible: bool,
    pub selected_right_tool: Option<String>,
}

impl Default for UiState {
    fn default() -> (u: Self)
        ensures
            u.window_width == 900,
            u.window_height == 600,
            !u.is_maximized,
            u.left_sidebar_width == 220,
            u.right_sidebar_width == 320,
            !u.left_sidebar_visible,
            !u.right_sidebar_visible,
            u.selected_right_tool is None,
    {
        UiState {
            window_width: 900,
            window_height: 600,
            is_maximized: false,
            left_sidebar_width: 220,
            right_sidebar_width: 320,
            left_sidebar_visible: false,
            right_sidebar_visible: false,
            selected_right_tool: None,
        }
    }
}

} // verus!
