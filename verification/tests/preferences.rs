//! User preferences defaults and theme selection.

use rttx::color_scheme::{BUILTIN_DARK_SCHEME_NAME, BUILTIN_LIGHT_SCHEME_NAME};
use rttx::preferences::{DefaultSessionFolder, Preferences, TerminalThemeMode};

#[test]
fn default_preferences_are_sensible() {
    let prefs = Preferences::default();
    assert_eq!(prefs.font, "Monospace 12");
    assert_eq!(prefs.terminal_theme_mode, TerminalThemeMode::System);
    assert_eq!(prefs.light_color_scheme, BUILTIN_LIGHT_SCHEME_NAME);
    assert_eq!(prefs.dark_color_scheme, BUILTIN_DARK_SCHEME_NAME);
    assert_eq!(prefs.scrollback_lines, 10000);
    assert!(prefs.show_headerbar);
    assert!(prefs.scroll_on_keystroke);
    assert!(!prefs.scroll_on_output);
    assert!(!prefs.smart_clipboard);
    assert!(!prefs.trim_trailing_whitespace_on_copy);
    assert!(prefs.auto_start_daemon);
    assert_eq!(prefs.reconnect_delay_secs, 10);
    assert!(prefs.paste_guard);
    assert_eq!(prefs.paste_guard_threshold, 1024);
}

#[test]
fn effective_color_scheme_tracks_mode() {
    let prefs = Preferences {
        terminal_theme_mode: TerminalThemeMode::System,
        light_color_scheme: "Light".into(),
        dark_color_scheme: "Dark".into(),
        ..Default::default()
    };
    assert_eq!(prefs.effective_color_scheme_name(false), "Light");
    assert_eq!(prefs.effective_color_scheme_name(true), "Dark");

    let prefs = Preferences {
        terminal_theme_mode: TerminalThemeMode::Light,
        light_color_scheme: "Light".into(),
        dark_color_scheme: "Dark".into(),
        ..Default::default()
    };
    assert_eq!(prefs.effective_color_scheme_name(false), "Light");
    assert_eq!(prefs.effective_color_scheme_name(true), "Light");
}

#[test]
fn effective_color_scheme_dark_mode_ignores_desktop() {
    let prefs = Preferences {
        terminal_theme_mode: TerminalThemeMode::Dark,
        light_color_scheme: "Light".into(),
        dark_color_scheme: "Dark".into(),
        ..Default::default()
    };
    assert_eq!(prefs.effective_color_scheme_name(false), "Dark");
    assert_eq!(prefs.effective_color_scheme_name(true), "Dark");
}

#[test]
fn default_session_folder_defaults_to_home() {
    let prefs = Preferences::default();
    assert_eq!(prefs.default_session_folder, DefaultSessionFolder::Home);
}

#[test]
fn auto_start_daemon_defaults_to_true() {
    assert!(Preferences::default().auto_start_daemon);
}

#[test]
fn reconnect_delay_secs_defaults_to_10() {
    assert_eq!(Preferences::default().reconnect_delay_secs, 10);
}

#[test]
fn paste_guard_defaults_to_enabled() {
    let prefs = Preferences::default();
    assert!(prefs.paste_guard);
    assert_eq!(prefs.paste_guard_threshold, 1024);
}
