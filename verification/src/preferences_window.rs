//! The preferences window's choice lists: which entry shows a stored
//! preference, and which preference a selected entry stands for.

use vstd::prelude::*;

use crate::commands::is_first_match;
use crate::preferences::{DefaultSessionFolder, TerminalThemeMode};
use crate::text::{owned, str_eq, strs_view};

verus! {

/// The theme mode at a position of the theme list (System, Light, Dark);
/// anything else is System.
pub open spec fn theme_mode_at(index: u32) -> TerminalThemeMode {
    if index == 1 {
        TerminalThemeMode::Light
    } else if index == 2 {
        TerminalThemeMode::Dark
    } else {
        TerminalThemeMode::System
    }
}

/// The position of a theme mode in the theme list.
pub open spec fn theme_mode_position(mode: TerminalThemeMode) -> u32 {
    match mode {
        TerminalThemeMode::System => 0,
        TerminalThemeMode::Light => 1,
        TerminalThemeMode::Dark => 2,
    }
}

/// The theme mode at a position of the theme list.
pub fn theme_mode_from_index(index: u32) -> (m: TerminalThemeMode)
    ensures
        m == theme_mode_at(index),
{
    match index {
        1 => TerminalThemeMode::Light,
        2 => TerminalThemeMode::Dark,
        _ => TerminalThemeMode::System,
    }
}

/// The position of a theme mode in the theme list.
pub fn theme_mode_index(mode: TerminalThemeMode) -> (i: u32)
    ensures
        i == theme_mode_position(mode),
{
    match mode {
        TerminalThemeMode::System => 0,
        TerminalThemeMode::Light => 1,
        TerminalThemeMode::Dark => 2,
    }
}

/// The position of a default folder in the folder list (Home directory,
/// Same as current workspace, Custom path).
pub open spec fn session_folder_position(f: DefaultSessionFolder) -> u32 {
    match f {
        DefaultSessionFolder::Home => 0,
        DefaultSessionFolder::CurrentSession => 1,
        DefaultSessionFolder::Custom(_) => 2,
    }
}

/// The text of the custom-path field for a default folder.
pub open spec fn custom_folder_text(f: DefaultSessionFolder) -> Seq<char> {
    match f {
        DefaultSessionFolder::Custom(p) => p@,
        _ => Seq::empty(),
    }
}

/// `f` is the default folder that the entry at `index` of the folder list
/// stands for, with `text` in the custom-path field; anything past the
/// list is Home.
pub open spec fn folder_selection(index: u32, text: Seq<char>, f: DefaultSessionFolder) -> bool {
    if index == 1 {
        f is CurrentSession
    } else if index == 2 {
        f matches DefaultSessionFolder::Custom(p) && p@ == text
    } else {
        f is Home
    }
}

/// The position of a default folder in the folder list.
pub fn session_folder_index(f: &DefaultSessionFolder) -> (i: u32)
    ensures
        i == session_folder_position(*f),
{
    match f {
        DefaultSessionFolder::Home => 0,
        DefaultSessionFolder::CurrentSession => 1,
        DefaultSessionFolder::Custom(_) => 2,
    }
}

/// The default folder chosen in the folder list, with the custom-path
/// field's text.
pub fn session_folder_from_selection(index: u32, custom_text: &str) -> (f: DefaultSessionFolder)
    ensures
        folder_selection(index, custom_text@, f),
{
    match index {
        1 => DefaultSessionFolder::CurrentSession,
        2 => DefaultSessionFolder::Custom(owned(custom_text)),
        _ => DefaultSessionFolder::Home,
    }
}

/// The first position of `name` in a palette list, if it is listed.
pub fn scheme_position(names: &[String], name: &str) -> (r: Option<usize>)
    ensures
        match r {
            Some(i) => is_first_match(strs_view(names@), name@, i as int),
            None => !strs_view(names@).contains(name@),
        },
{
    let ghost v = strs_view(names@);
    let mut i: usize = 0;
    while i < names.len()
        invariant
            i <= names@.len(),
            v == strs_view(names@),
            forall|j: int| 0 <= j < i ==> v[j] != name@,
        decreases names@.len() - i,
    {
        if str_eq(names[i].as_str(), name) {
            return Some(i);
        }
        i = i + 1;
    }
    proof {
        if v.contains(name@) {
            let k = choose|k: int| 0 <= k < v.len() && v[k] == name@;
            assert(v[k] != name@);
        }
    }
    None
}

/// Showing the stored theme mode in the list and reading the list back
/// gives the same mode.
pub proof fn law_theme_mode_round_trip(mode: TerminalThemeMode)
    ensures
        theme_mode_at(theme_mode_position(mode)) == mode,
{
}

/// Showing the stored default folder in the list (and its path in the
/// custom field) and reading the list back gives the same folder.
pub proof fn law_session_folder_round_trip(f: DefaultSessionFolder)
    ensures
        folder_selection(session_folder_position(f), custom_folder_text(f), f),
{
}

/// What the shortcut dialog does with a key press.
#[derive(Debug, Clone, Copy, PartialEq, Eq, Structural)]
pub enum AccelCapture {
    /// A modifier pressed on its own: keep waiting.
    Ignore,
    /// Backspace alone: the action gets no shortcut.
    Disable,
    /// Escape alone: close without a change.
    Cancel,
    /// Any other key: the pressed combination becomes the shortcut.
    Capture,
}

/// Whether a key name is that of a modifier key.
pub open spec fn is_modifier_key(name: Seq<char>) -> bool {
    ||| name == "Shift_L"@ || name == "Shift_R"@
    ||| name == "Control_L"@ || name == "Control_R"@
    ||| name == "Alt_L"@ || name == "Alt_R"@
    ||| name == "Super_L"@ || name == "Super_R"@
    ||| name == "Meta_L"@ || name == "Meta_R"@
    ||| name == "Hyper_L"@ || name == "Hyper_R"@
}

/// The step for a key press, by key name, and whether Control, Shift, Alt
/// or Super is held.
pub open spec fn accel_capture_step(name: Seq<char>, has_modifiers: bool) -> AccelCapture {
    if is_modifier_key(name) {
        AccelCapture::Ignore
    } else if name == "BackSpace"@ && !has_modifiers {
        AccelCapture::Disable
    } else if name == "Escape"@ && !has_modifiers {
        AccelCapture::Cancel
    } else {
        AccelCapture::Capture
    }
}

/// What the shortcut dialog does with a key press.
pub fn accel_capture(key_name: &str, has_modifiers: bool) -> (r: AccelCapture)
    ensures
        r == accel_capture_step(key_name@, has_modifiers),
{
    let modifier = str_eq(key_name, "Shift_L") || str_eq(key_name, "Shift_R") || str_eq(key_name, "Control_L")
        || str_eq(key_name, "Control_R") || str_eq(key_name, "Alt_L") || str_eq(key_name, "Alt_R") || str_eq(
        key_name,
        "Super_L",
    ) || str_eq(key_name, "Super_R") || str_eq(key_name, "Meta_L") || str_eq(key_name, "Meta_R") || str_eq(
        key_name,
        "Hyper_L",
    ) || str_eq(key_name, "Hyper_R");
    if modifier {
        AccelCapture::Ignore
    } else if !has_modifiers && str_eq(key_name, "BackSpace") {
        AccelCapture::Disable
    } else if !has_modifiers && str_eq(key_name, "Escape") {
        AccelCapture::Cancel
    } else {
        AccelCapture::Capture
    }
}

} // verus!
