//! Places: labels, visibility and search.

use rttx::places::{Place, builtin_home, builtin_root, builtins, is_visible_on, matches_query, visible_for_host};


// ── Built-in places ─────────────────────────────────────────

#[test]
fn builtin_home_has_stable_uuid_and_global_tags() {
    let home = builtin_home();
    assert_eq!(home.uuid, "builtin:home");
    assert_eq!(home.name, "Home");
    assert_eq!(home.path, "~");
    assert!(home.host_tags.is_empty());
}

#[test]
fn builtin_root_has_stable_uuid_and_global_tags() {
    let root = builtin_root();
    assert_eq!(root.uuid, "builtin:root");
    assert_eq!(root.name, "Root");
    assert_eq!(root.path, "/");
    assert!(root.host_tags.is_empty());
}

#[test]
fn builtins_returns_home_then_root() {
    let items = builtins();
    assert_eq!(items.len(), 2);
    assert_eq!(items[0].name, "Home");
    assert_eq!(items[1].name, "Root");
}

// ── Display label ───────────────────────────────────────────

#[test]
fn from_cwd_derives_name_from_last_component() {
    let place = Place::from_cwd("/home/user/projects/rttx", vec![]);
    assert_eq!(place.name, "rttx");
    assert_eq!(place.path, "/home/user/projects/rttx");
    assert!(place.host_tags.is_empty());
}

#[test]
fn from_cwd_root_path_uses_full_path_as_name() {
    let place = Place::from_cwd("/", vec![]);
    assert_eq!(place.name, "/");
    assert_eq!(place.path, "/");
}

#[test]
fn from_cwd_preserves_host_tags() {
    let place = Place::from_cwd("/srv/app", vec!["example.com".into()]);
    assert_eq!(place.host_tags, vec!["example.com"]);
}

#[test]
fn display_label_shows_name_and_path_when_different() {
    let place = Place::new("rttx", "~/pro/rttx");
    assert_eq!(place.display_label(), "rttx (~/pro/rttx)");
}

#[test]
fn display_label_shows_only_name_when_same_as_path() {
    let place = Place::new("/srv/app", "/srv/app");
    assert_eq!(place.display_label(), "/srv/app");
}

#[test]
fn display_label_shows_only_name_when_path_empty() {
    let place = Place { path: String::new(), ..Place::new("Home", "") };
    assert_eq!(place.display_label(), "Home");
}

// ── Visibility ──────────────────────────────────────────────

#[test]
fn global_place_visible_on_any_host() {
    let place = Place::new("Global", "/tmp");
    assert!(is_visible_on(&place, "local"));
    assert!(is_visible_on(&place, "example.com"));
}

#[test]
fn tagged_place_visible_only_on_matching_host() {
    let mut place = Place::new("Local only", "/home/user");
    place.host_tags = vec!["local".into()];
    assert!(is_visible_on(&place, "local"));
    assert!(!is_visible_on(&place, "example.com"));
}

#[test]
fn multi_tagged_place_visible_on_all_tagged_hosts() {
    let mut place = Place::new("Multi", "/shared");
    place.host_tags = vec!["local".into(), "example.com".into()];
    assert!(is_visible_on(&place, "local"));
    assert!(is_visible_on(&place, "example.com"));
    assert!(!is_visible_on(&place, "other.com"));
}

// ── visible_for_host ────────────────────────────────────────

#[test]
fn visible_for_host_includes_builtins_and_matching_saved() {
    let mut local_place = Place::new("rttx", "~/pro/rttx");
    local_place.host_tags = vec!["local".into()];
    let mut remote_place = Place::new("app", "/srv/app");
    remote_place.host_tags = vec!["example.com".into()];
    let global_place = Place::new("tmp", "/tmp");

    let saved = vec![local_place, remote_place, global_place];
    let visible = visible_for_host(&saved, "local");

    let names: Vec<&str> = visible.iter().map(|p| p.name.as_str()).collect();
    assert_eq!(names, vec!["Home", "Root", "rttx", "tmp"]);
}

#[test]
fn visible_for_host_with_no_saved_returns_only_builtins() {
    let visible = visible_for_host(&[], "local");
    assert_eq!(visible.len(), 2);
    assert_eq!(visible[0].name, "Home");
    assert_eq!(visible[1].name, "Root");
}

// ── Search ──────────────────────────────────────────────────

#[test]
fn matches_query_by_name() {
    let place = Place::new("rttx", "~/pro/rttx");
    assert!(matches_query(&place, "rttx"));
    assert!(matches_query(&place, "RTT"));
    assert!(!matches_query(&place, "redis"));
}

#[test]
fn matches_query_by_path() {
    let place = Place::new("rttx", "~/pro/rttx");
    assert!(matches_query(&place, "pro/rttx"));
}

#[test]
fn blank_query_matches_all() {
    let place = Place::new("Anything", "/any");
    assert!(matches_query(&place, ""));
    assert!(matches_query(&place, "   "));
}
