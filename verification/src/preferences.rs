//! User preferences: theme selection, terminal behavior, keyboard shortcut
//! overrides and daemon options.

use vstd::prelude::*;

use crate::color_scheme::{BUILTIN_DARK_SCHEME_NAME, BUILTIN_LIGHT_SCHEME_NAME};
use crate::str_map::StrMap;
use crate::text::owned;

verus! {

/// Which palette the terminal uses.
#[derive(Debug, Clone, Copy, PartialEq, Eq, Structural)]
pub enum TerminalThemeMode {
    System,
    Light,
    Dark,
}

/// Where a new workspace starts.
#[derive(Debug, Clone, PartialEq, Eq)]
pub enum DefaultSessionFolder {
    Home,
    CurrentSession,
    Custom(String),
}

/// The pane-navigation key set of older preference files.
#[derive(Debug, Clone, Copy, PartialEq, Eq, Structural)]
pub enum PaneNavigationKeys {
    /// `Alt` + arrow keys (the default).
    AltArrow,
    /// `Ctrl` + `Shift` + arrow keys.
    CtrlShiftArrow,
}

/// Accelerators `(left, right, up, down)` of a navigation key set.
pub open spec fn navigation_accels(keys: PaneNavigationKeys) -> (Seq<char>, Seq<char>, Seq<char>, Seq<char>) {
    match keys {
        PaneNavigationKeys::AltArrow => ("<Alt>Left"@, "<Alt>Right"@, "<Alt>Up"@, "<Alt>Down"@),
        PaneNavigationKeys::CtrlShiftArrow => (
            "<Ctrl><Shift>Left"@,
            "<Ctrl><Shift>Right"@,
            "<Ctrl><Shift>Up"@,
            "<Ctrl><Shift>Down"@,
        ),
    }
}

impl PaneNavigationKeys {
    /// GTK accelerators `(left, right, up, down)` of this key set.
    pub fn accels(&self) -> (r: (&'static str, &'static str, &'static str, &'static str))
        ensures
            (r.0@, r.1@, r.2@, r.3@) == navigation_accels(*self),
    {
        match self {
            PaneNavigationKeys::AltArrow => ("<Alt>Left", "<Alt>Right", "<Alt>Up", "<Alt>Down"),
            PaneNavigationKeys::CtrlShiftArrow => (
                "<Ctrl><Shift>Left",
                "<Ctrl><Shift>Right",
                "<Ctrl><Shift>Up",
                "<Ctrl><Shift>Down",
            ),
        }
    }
}

/// User preferences.
#[derive(Debug, Clone, PartialEq, Eq)]
pub struct Preferences {
    pub font: String,
    pub terminal_theme_mode: TerminalThemeMode,
    pub light_color_scheme: String,
    pub dark_color_scheme: String,
    pub scrollback_lines: i64,
    pub show_headerbar: bool,
    pub scroll_on_keystroke: bool,
    pub scroll_on_output: bool,
    pub audible_bell: bool,
    pub visual_bell: bool,
    pub smart_clipboard: bool,
    pub trim_trailing_whitespace_on_copy: bool,
    pub default_session_folder: DefaultSessionFolder,
    pub keyboard_shortcuts: StrMap<Vec<String>>,
    pub auto_start_daemon: bool,
    pub reconnect_delay_secs: u32,
    pub paste_guard: bool,
    pub paste_guard_threshold: usize,
}

impl Default for Preferences {
    fn default() -> (p: Self)
        ensures
            p.font@ == "Monospace 12"@,
            p.terminal_theme_mode == TerminalThemeMode::System,
            p.light_color_scheme@ == BUILTIN_LIGHT_SCHEME_NAME@,
            p.dark_color_scheme@ == BUILTIN_DARK_SCHEME_NAME@,
            p.scrollback_lines == 10000,
            p.show_headerbar,
            p.scroll_on_keystroke,
            !p.scroll_on_output,
            p.audible_bell,
            p.visual_bell,
            !p.smart_clipboard,
            !p.trim_trailing_whitespace_on_copy,
            p.default_session_folder == DefaultSessionFolder::Home,
            p.keyboard_shortcuts@ == Map::<Seq<char>, Vec<String>>::empty(),
            p.auto_start_daemon,
            p.reconnect_delay_secs == 10,
            p.paste_guard,
            p.paste_guard_threshold == 1024,
    {
        Preferences {
            font: owned("Monospace 12"),
            terminal_theme_mode: TerminalThemeMode::System,
            light_color_scheme: owned(BUILTIN_LIGHT_SCHEME_NAME),
            dark_color_scheme: owned(BUILTIN_DARK_SCHEME_NAME),
            scrollback_lines: 10000,
            show_headerbar: true,
            scroll_on_keystroke: true,
            scroll_on_output: false,
            audible_bell: true,
            visual_bell: true,
            smart_clipboard: false,
            trim_trailing_whitespace_on_copy: false,
            default_session_folder: DefaultSessionFolder::Home,
            keyboard_shortcuts: StrMap::new(),
            auto_start_daemon: true,
            reconnect_delay_secs: 10,
            paste_guard: true,
            paste_guard_threshold: 1024,
        }
    }
}

/// The scheme name in use for a theme mode and the desktop's darkness.
pub open spec fn effective_scheme(mode: TerminalThemeMode, is_dark: bool, light: Seq<char>, dark: Seq<char>) -> Seq<char> {
    match mode {
        TerminalThemeMode::System => if is_dark {
            dark
        } else {
            light
        },
        TerminalThemeMode::Light => light,
        TerminalThemeMode::Dark => dark,
    }
}

impl Preferences {
    /// The color scheme in effect: the mode's own scheme, or for `System`
    /// the one matching the desktop's darkness.
    pub fn effective_color_scheme_name(&self, is_dark: bool) -> (s: &str)
        ensures
            s@ == effective_scheme(self.terminal_theme_mode, is_dark, self.light_color_scheme@, self.dark_color_scheme@),
    {
        match self.terminal_theme_mode {
            TerminalThemeMode::System => {
                if is_dark {
                    self.dark_color_scheme.as_str()
                } else {
                    self.light_color_scheme.as_str()
                }
            },
            TerminalThemeMode::Light => self.light_color_scheme.as_str(),
            TerminalThemeMode::Dark => self.dark_color_scheme.as_str(),
        }
    }
}

} // verus!
