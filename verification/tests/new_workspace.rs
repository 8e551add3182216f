//! Place paths and icons in the new-workspace view.

use rttx::places::{Place, builtin_home, builtin_root, place_icon, resolve_place_path};


#[test]
fn resolve_tilde_returns_none_for_home() {
    assert_eq!(resolve_place_path("~"), None);
}

#[test]
fn resolve_empty_returns_none() {
    assert_eq!(resolve_place_path(""), None);
}

#[test]
fn resolve_root_returns_root() {
    assert_eq!(resolve_place_path("/"), Some("/".into()));
}

#[test]
fn resolve_absolute_path_unchanged() {
    assert_eq!(resolve_place_path("/srv/app"), Some("/srv/app".into()));
}

#[test]
fn resolve_tilde_prefix_preserves_tilde() {
    assert_eq!(resolve_place_path("~/projects"), Some("~/projects".into()));
}

#[test]
fn resolve_tilde_bin_preserves_tilde() {
    assert_eq!(resolve_place_path("~/bin/"), Some("~/bin/".into()));
}

#[test]
fn place_icon_home_is_user_home() {
    assert_eq!(place_icon(&builtin_home()), "user-home-symbolic");
}

#[test]
fn place_icon_root_is_drive() {
    assert_eq!(place_icon(&builtin_root()), "drive-harddisk-symbolic");
}

#[test]
fn place_icon_saved_is_folder() {
    let place = Place::new("rttx", "~/pro/rttx");
    assert_eq!(place_icon(&place), "folder-symbolic");
}
