//! Canonical preferences document model (`preferences.json`).

use vstd::prelude::*;

use crate::color_scheme::{BUILTIN_DARK_SCHEME_NAME, BUILTIN_LIGHT_SCHEME_NAME};
use crate::preferences::Preferences;
use crate::shortcuts::overrides_view;
use crate::store::envelope::Schema;
use crate::str_map::StrMap;
use crate::text::{owned, str_eq, strs_view};

verus! {

pub const SCHEMA: Schema = Schema::Preferences;
pub const CURRENT_VERSION: u32 = 2;

/// Bare palette names written by version 1 documents. They never matched a
/// real scheme, so both palette choices silently collapsed onto one entry.
pub const LEGACY_LIGHT_SCHEME_NAME: &'static str = "Daybreak";
pub const LEGACY_DARK_SCHEME_NAME: &'static str = "Nightfall";

/// Terminal theme mode selection.
#[derive(Debug, Clone, Copy, PartialEq, Eq, Structural)]
pub enum TerminalThemeMode {
    System,
    Light,
    Dark,
}

/// Default session folder behavior.
#[derive(Debug, Clone, PartialEq, Eq)]
pub enum DefaultSessionFolder {
    Home,
    CurrentSession,
    Custom(String),
}

/// Durable user preferences: no workspace layout, connection status, or
/// runtime inventory.
///
/// The payload shape is identical for document versions 1 and 2; version 2
/// only narrows which palette names are valid (see
/// [`PreferencesV1::migrate_color_scheme_names`]).
#[derive(Debug, Clone, PartialEq, Eq)]
pub struct PreferencesV1 {
    pub font: String,
    pub terminal_theme_mode: TerminalThemeMode,
    pub light_color_scheme: String,
    pub dark_color_scheme: String,
    pub scrollback_lines: i64,
    pub show_headerbar: bool,
    pub scroll_on_keystroke: bool,
    pub scroll_on_output: bool,
    pub audible_bell: bool,
    pub visual_bell: bool,
    pub smart_clipboard: bool,
    pub trim_trailing_whitespace_on_copy: bool,
    pub default_session_folder: DefaultSessionFolder,
    pub keyboard_shortcuts: StrMap<Vec<String>>,
    pub auto_start_daemon: bool,
    pub reconnect_delay_secs: u32,
    pub paste_guard: bool,
    pub paste_guard_threshold: usize,
}

impl Default for PreferencesV1 {
    fn default() -> (p: Self)
        ensures
            p.font@ == "Monospace 12"@,
            p.terminal_theme_mode == TerminalThemeMode::System,
            p.light_color_scheme@ == BUILTIN_LIGHT_SCHEME_NAME@,
            p.dark_color_scheme@ == BUILTIN_DARK_SCHEME_NAME@,
            p.scrollback_lines == 10_000,
            p.show_headerbar,
            p.scroll_on_keystroke,
            !p.scroll_on_output,
            p.audible_bell,
            p.visual_bell,
            !p.smart_clipboard,
            !p.trim_trailing_whitespace_on_copy,
            p.default_session_folder == DefaultSessionFolder::Home,
            p.keyboard_shortcuts@ == Map::<Seq<char>, Vec<String>>::empty(),
            p.auto_start_daemon,
            p.reconnect_delay_secs == 3,
            p.paste_guard,
            p.paste_guard_threshold == 200,
    {
        PreferencesV1 {
            font: owned("Monospace 12"),
            terminal_theme_mode: TerminalThemeMode::System,
            light_color_scheme: owned(BUILTIN_LIGHT_SCHEME_NAME),
            dark_color_scheme: owned(BUILTIN_DARK_SCHEME_NAME),
            scrollback_lines: 10_000,
            show_headerbar: true,
            scroll_on_keystroke: true,
            scroll_on_output: false,
            audible_bell: true,
            visual_bell: true,
            smart_clipboard: false,
            trim_trailing_whitespace_on_copy: false,
            default_session_folder: DefaultSessionFolder::Home,
            keyboard_shortcuts: StrMap::new(),
            auto_start_daemon: true,
            reconnect_delay_secs: 3,
            paste_guard: true,
            paste_guard_threshold: 200,
        }
    }
}

/// A legacy bare palette name replaced by the built-in scheme it meant.
pub open spec fn canonical_name(name: Seq<char>) -> Seq<char> {
    if name == LEGACY_LIGHT_SCHEME_NAME@ {
        BUILTIN_LIGHT_SCHEME_NAME@
    } else if name == LEGACY_DARK_SCHEME_NAME@ {
        BUILTIN_DARK_SCHEME_NAME@
    } else {
        name
    }
}

/// The `(light, dark)` palette names after migration: legacy names are
/// canonicalized, and a pair that names one scheme for both modes is reset
/// to the built-in pair.
pub open spec fn migrated_names(light: Seq<char>, dark: Seq<char>) -> (Seq<char>, Seq<char>) {
    let l = canonical_name(light);
    let d = canonical_name(dark);
    if l == d {
        (BUILTIN_LIGHT_SCHEME_NAME@, BUILTIN_DARK_SCHEME_NAME@)
    } else {
        (l, d)
    }
}

/// The built-in palette name a legacy bare name meant; any other name as is.
pub fn canonical_scheme_name(name: &str) -> (s: String)
    ensures
        s@ == canonical_name(name@),
{
    if str_eq(name, LEGACY_LIGHT_SCHEME_NAME) {
        owned(BUILTIN_LIGHT_SCHEME_NAME)
    } else if str_eq(name, LEGACY_DARK_SCHEME_NAME) {
        owned(BUILTIN_DARK_SCHEME_NAME)
    } else {
        owned(name)
    }
}

impl PreferencesV1 {
    /// Migrate a version 1 document to version 2 by repairing palette names.
    ///
    /// Version 1 defaults used bare `"Daybreak"`/`"Nightfall"` names that no
    /// scheme ever carried, so the preference choices fell back to the first
    /// entry and saved the same palette for both modes. Returns `true` when a
    /// name changed, so the caller can rewrite the document.
    pub fn migrate_color_scheme_names(&mut self) -> (changed: bool)
        ensures
            (final(self).light_color_scheme@, final(self).dark_color_scheme@) == migrated_names(
                old(self).light_color_scheme@,
                old(self).dark_color_scheme@,
            ),
            changed == (migrated_names(old(self).light_color_scheme@, old(self).dark_color_scheme@) != (
                old(self).light_color_scheme@,
                old(self).dark_color_scheme@,
            )),
            same_but_names(*final(self), *old(self)),
    {
        let mut light = canonical_scheme_name(self.light_color_scheme.as_str());
        let mut dark = canonical_scheme_name(self.dark_color_scheme.as_str());
        if str_eq(light.as_str(), dark.as_str()) {
            light = owned(BUILTIN_LIGHT_SCHEME_NAME);
            dark = owned(BUILTIN_DARK_SCHEME_NAME);
        }
        let changed = !str_eq(light.as_str(), self.light_color_scheme.as_str()) || !str_eq(
            dark.as_str(),
            self.dark_color_scheme.as_str(),
        );
        self.light_color_scheme = light;
        self.dark_color_scheme = dark;
        changed
    }
}

/// `new` is `old` with, at most, other palette names.
pub open spec fn same_but_names(new: PreferencesV1, old: PreferencesV1) -> bool {
    new == (PreferencesV1 {
        light_color_scheme: new.light_color_scheme,
        dark_color_scheme: new.dark_color_scheme,
        ..old
    })
}

/// Facts about the palette names the migration deals in.
proof fn lemma_scheme_names_distinct()
    ensures
        BUILTIN_LIGHT_SCHEME_NAME@ != BUILTIN_DARK_SCHEME_NAME@,
        BUILTIN_LIGHT_SCHEME_NAME@ != LEGACY_LIGHT_SCHEME_NAME@,
        BUILTIN_LIGHT_SCHEME_NAME@ != LEGACY_DARK_SCHEME_NAME@,
        BUILTIN_DARK_SCHEME_NAME@ != LEGACY_LIGHT_SCHEME_NAME@,
        BUILTIN_DARK_SCHEME_NAME@ != LEGACY_DARK_SCHEME_NAME@,
{
    reveal_strlit("Rttx Daybreak");
    reveal_strlit("Rttx Nightfall");
    reveal_strlit("Daybreak");
    reveal_strlit("Nightfall");
    assert(BUILTIN_LIGHT_SCHEME_NAME@.len() == 13);
    assert(BUILTIN_DARK_SCHEME_NAME@.len() == 14);
    assert(LEGACY_LIGHT_SCHEME_NAME@.len() == 8);
    assert(LEGACY_DARK_SCHEME_NAME@.len() == 9);
}

/// Migrating palette names twice is the same as migrating once, and the
/// migrated pair always names two different schemes.
pub proof fn law_migration_idempotent(light: Seq<char>, dark: Seq<char>)
    ensures
        migrated_names(migrated_names(light, dark).0, migrated_names(light, dark).1) == migrated_names(light, dark),
        migrated_names(light, dark).0 != migrated_names(light, dark).1,
{
    lemma_scheme_names_distinct();
}

/// A copy of a shortcut override map with the same entries.
pub fn clone_overrides(m: &StrMap<Vec<String>>) -> (r: StrMap<Vec<String>>)
    ensures
        overrides_view(r@) == overrides_view(m@),
{
    let n = m.len();
    let mut r: StrMap<Vec<String>> = StrMap::new();
    let mut i: usize = 0;
    while i < n
        invariant
            n == m.keys().len(),
            m.wf(),
            i <= n,
            r@.dom() == m.keys().take(i as int).to_set(),
            forall|k: Seq<char>| #[trigger] r@.dom().contains(k) ==> strs_view(r@[k]@) == strs_view(m@[k]@),
        decreases n - i,
    {
        let k = m.key_at(i).clone();
        let v = m.value_at(i).clone();
        assert(strs_view(v@) =~= strs_view(m@[k@]@));
        r.insert(k, v);
        proof {
            crate::seqs::lemma_take_to_set(m.keys(), i as int);
        }
        i = i + 1;
    }
    proof {
        assert(m.keys().take(n as int) =~= m.keys());
        assert(overrides_view(r@) =~= overrides_view(m@));
    }
    r
}

impl PreferencesV1 {
    /// The document for the in-memory preferences.
    pub fn from_preferences(prefs: &Preferences) -> (d: Self)
        ensures
            d.font == prefs.font,
            d.terminal_theme_mode == match prefs.terminal_theme_mode {
                crate::preferences::TerminalThemeMode::System => TerminalThemeMode::System,
                crate::preferences::TerminalThemeMode::Light => TerminalThemeMode::Light,
                crate::preferences::TerminalThemeMode::Dark => TerminalThemeMode::Dark,
            },
            d.light_color_scheme == prefs.light_color_scheme,
            d.dark_color_scheme == prefs.dark_color_scheme,
            d.scrollback_lines == prefs.scrollback_lines,
            d.show_headerbar == prefs.show_headerbar,
            d.scroll_on_keystroke == prefs.scroll_on_keystroke,
            d.scroll_on_output == prefs.scroll_on_output,
            d.audible_bell == prefs.audible_bell,
            d.visual_bell == prefs.visual_bell,
            d.smart_clipboard == prefs.smart_clipboard,
            d.trim_trailing_whitespace_on_copy == prefs.trim_trailing_whitespace_on_copy,
            d.default_session_folder == match prefs.default_session_folder {
                crate::preferences::DefaultSessionFolder::Home => DefaultSessionFolder::Home,
                crate::preferences::DefaultSessionFolder::CurrentSession => DefaultSessionFolder::CurrentSession,
                crate::preferences::DefaultSessionFolder::Custom(s) => DefaultSessionFolder::Custom(s),
            },
            overrides_view(d.keyboard_shortcuts@) == overrides_view(prefs.keyboard_shortcuts@),
            d.auto_start_daemon == prefs.auto_start_daemon,
            d.reconnect_delay_secs == prefs.reconnect_delay_secs,
            d.paste_guard == prefs.paste_guard,
            d.paste_guard_threshold == prefs.paste_guard_threshold,
    {
        PreferencesV1 {
            font: prefs.font.clone(),
            terminal_theme_mode: match prefs.terminal_theme_mode {
                crate::preferences::TerminalThemeMode::System => TerminalThemeMode::System,
                crate::preferences::TerminalThemeMode::Light => TerminalThemeMode::Light,
                crate::preferences::TerminalThemeMode::Dark => TerminalThemeMode::Dark,
            },
            light_color_scheme: prefs.light_color_scheme.clone(),
            dark_color_scheme: prefs.dark_color_scheme.clone(),
            scrollback_lines: prefs.scrollback_lines,
            show_headerbar: prefs.show_headerbar,
            scroll_on_keystroke: prefs.scroll_on_keystroke,
            scroll_on_output: prefs.scroll_on_output,
            audible_bell: prefs.audible_bell,
            visual_bell: prefs.visual_bell,
            smart_clipboard: prefs.smart_clipboard,
            trim_trailing_whitespace_on_copy: prefs.trim_trailing_whitespace_on_copy,
            default_session_folder: match &prefs.default_session_folder {
                crate::preferences::DefaultSessionFolder::Home => DefaultSessionFolder::Home,
                crate::preferences::DefaultSessionFolder::CurrentSession => DefaultSessionFolder::CurrentSession,
                crate::preferences::DefaultSessionFolder::Custom(s) => DefaultSessionFolder::Custom(s.clone()),
            },
            keyboard_shortcuts: clone_overrides(&prefs.keyboard_shortcuts),
            auto_start_daemon: prefs.auto_start_daemon,
            reconnect_delay_secs: prefs.reconnect_delay_secs,
            paste_guard: prefs.paste_guard,
            paste_guard_threshold: prefs.paste_guard_threshold,
        }
    }

    /// The in-memory preferences this document holds.
    pub fn into_preferences(self) -> (p: Preferences)
        ensures
            p.font == self.font,
            p.terminal_theme_mode == match self.terminal_theme_mode {
                TerminalThemeMode::System => crate::preferences::TerminalThemeMode::System,
                TerminalThemeMode::Light => crate::preferences::TerminalThemeMode::Light,
                TerminalThemeMode::Dark => crate::preferences::TerminalThemeMode::Dark,
            },
            p.light_color_scheme == self.light_color_scheme,
            p.dark_color_scheme == self.dark_color_scheme,
            p.scrollback_lines == self.scrollback_lines,
            p.show_headerbar == self.show_headerbar,
            p.scroll_on_keystroke == self.scroll_on_keystroke,
            p.scroll_on_output == self.scroll_on_output,
            p.audible_bell == self.audible_bell,
            p.visual_bell == self.visual_bell,
            p.smart_clipboard == self.smart_clipboard,
            p.trim_trailing_whitespace_on_copy == self.trim_trailing_whitespace_on_copy,
            p.default_session_folder == match self.default_session_folder {
                DefaultSessionFolder::Home => crate::preferences::DefaultSessionFolder::Home,
                DefaultSessionFolder::CurrentSession => crate::preferences::DefaultSessionFolder::CurrentSession,
                DefaultSessionFolder::Custom(s) => crate::preferences::DefaultSessionFolder::Custom(s),
            },
            p.keyboard_shortcuts == self.keyboard_shortcuts,
            p.auto_start_daemon == self.auto_start_daemon,
            p.reconnect_delay_secs == self.reconnect_delay_secs,
            p.paste_guard == self.paste_guard,
            p.paste_guard_threshold == self.paste_guard_threshold,
    {
        Preferences {
            font: self.font,
            terminal_theme_mode: match self.terminal_theme_mode {
                TerminalThemeMode::System => crate::preferences::TerminalThemeMode::System,
                TerminalThemeMode::Light => crate::preferences::TerminalThemeMode::Light,
                TerminalThemeMode::Dark => crate::preferences::TerminalThemeMode::Dark,
            },
            light_color_scheme: self.light_color_scheme,
            dark_color_scheme: self.dark_color_scheme,
            scrollback_lines: self.scrollback_lines,
            show_headerbar: self.show_headerbar,
            scroll_on_keystroke: self.scroll_on_keystroke,
            scroll_on_output: self.scroll_on_output,
            audible_bell: self.audible_bell,
            visual_bell: self.visual_bell,
            smart_clipboard: self.smart_clipboard,
            trim_trailing_whitespace_on_copy: self.trim_trailing_whitespace_on_copy,
            default_session_folder: match self.default_session_folder {
                DefaultSessionFolder::Home => crate::preferences::DefaultSessionFolder::Home,
                DefaultSessionFolder::CurrentSession => crate::preferences::DefaultSessionFolder::CurrentSession,
                DefaultSessionFolder::Custom(s) => crate::preferences::DefaultSessionFolder::Custom(s),
            },
            keyboard_shortcuts: self.keyboard_shortcuts,
            auto_start_daemon: self.auto_start_daemon,
            reconnect_delay_secs: self.reconnect_delay_secs,
            paste_guard: self.paste_guard,
            paste_guard_threshold: self.paste_guard_threshold,
        }
    }
}

} // verus!
