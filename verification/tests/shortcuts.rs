//! Keyboard shortcut defaults, overrides and migration.

use rttx::shortcuts::{default_accels, effective_accels, migrate_pane_navigation};
use rttx::preferences::PaneNavigationKeys;
use rttx::shortcuts::default_shortcuts;
use rttx::str_map::StrMap;


#[test]
fn effective_accels_returns_default_when_no_override() {
    let overrides = StrMap::new();
    let accels = effective_accels("close-terminal", &overrides);
    assert_eq!(accels, vec!["<Ctrl><Shift>W"]);
}

#[test]
fn effective_accels_returns_override_when_present() {
    let mut overrides = StrMap::new();
    overrides.insert("close-terminal".into(), vec!["<Ctrl>q".into()]);
    let accels = effective_accels("close-terminal", &overrides);
    assert_eq!(accels, vec!["<Ctrl>q"]);
}

#[test]
fn effective_accels_returns_empty_for_unknown_action() {
    let overrides = StrMap::new();
    let accels = effective_accels("nonexistent-action", &overrides);
    assert!(accels.is_empty());
}

#[test]
fn default_accels_returns_correct_values() {
    assert_eq!(default_accels("fullscreen"), vec!["F11"]);
    assert_eq!(default_accels("zoom-in"), vec!["<Ctrl>plus", "<Ctrl>equal"]);
}

#[test]
fn override_with_empty_vec_disables_shortcut() {
    let mut overrides = StrMap::new();
    overrides.insert("fullscreen".into(), vec![]);
    let accels = effective_accels("fullscreen", &overrides);
    assert!(accels.is_empty());
}

#[test]
fn all_default_shortcuts_have_unique_actions() {
    let mut seen = std::collections::HashSet::new();
    for def in default_shortcuts() {
        assert!(seen.insert(def.action), "duplicate action: {}", def.action);
    }
}

#[test]
fn all_default_shortcuts_have_labels() {
    for def in default_shortcuts() {
        assert!(!def.label.is_empty(), "empty label for action: {}", def.action);
    }
}

#[test]
fn migrate_pane_navigation_noop_for_alt_arrow() {
    let mut shortcuts = StrMap::new();
    migrate_pane_navigation(&PaneNavigationKeys::AltArrow, &mut shortcuts);
    assert!(shortcuts.is_empty());
}

#[test]
fn migrate_pane_navigation_populates_ctrl_shift_arrow() {
    let mut shortcuts = StrMap::new();
    migrate_pane_navigation(&PaneNavigationKeys::CtrlShiftArrow, &mut shortcuts);
    assert_eq!(*shortcuts.get("navigate-left").unwrap(), vec!["<Ctrl><Shift>Left"]);
    assert_eq!(*shortcuts.get("navigate-right").unwrap(), vec!["<Ctrl><Shift>Right"]);
    assert_eq!(*shortcuts.get("navigate-up").unwrap(), vec!["<Ctrl><Shift>Up"]);
    assert_eq!(*shortcuts.get("navigate-down").unwrap(), vec!["<Ctrl><Shift>Down"]);
}

#[test]
fn migrate_pane_navigation_does_not_overwrite_existing() {
    let mut shortcuts = StrMap::new();
    shortcuts.insert("navigate-left".into(), vec!["<Alt>h".into()]);
    migrate_pane_navigation(&PaneNavigationKeys::CtrlShiftArrow, &mut shortcuts);
    assert_eq!(*shortcuts.get("navigate-left").unwrap(), vec!["<Alt>h"]);
    assert_eq!(*shortcuts.get("navigate-right").unwrap(), vec!["<Ctrl><Shift>Right"]);
}

#[test]
fn migrate_pane_navigation_twice_is_once() {
    let mut once: StrMap<Vec<String>> = StrMap::new();
    once.insert("navigate-up".into(), vec!["<Ctrl>k".into()]);
    migrate_pane_navigation(&PaneNavigationKeys::CtrlShiftArrow, &mut once);
    let mut twice = once.clone();
    migrate_pane_navigation(&PaneNavigationKeys::CtrlShiftArrow, &mut twice);
    assert_eq!(once, twice);
    assert_eq!(effective_accels("navigate-up", &twice), vec!["<Ctrl>k"]);
    assert_eq!(effective_accels("navigate-left", &twice), vec!["<Ctrl><Shift>Left"]);
}
