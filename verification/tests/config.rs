//! Application profiles and directories.

use rttx::config::{APP_ID, APP_NAME, CONFIG_DIR, DEV_ICON_NAME, ISSUE_TRACKER, PROJECT_WEBSITE, SETTINGS_ID, SETTINGS_PATH, STATE_DIR, app_id, app_profile_from_dev_mode, badge_label, config_dir_path_for, dev_icon_search_path, display_name, icon_name, is_development, settings_id, settings_path, state_dir_path_for};


#[test]
fn app_id_is_valid_reverse_dns() {
    assert!(APP_ID.contains('.'));
    assert!(APP_ID.starts_with("io.github"));
    assert!(APP_ID.contains(".rttx"));
}

#[test]
fn app_id_matches_settings_id() {
    assert_eq!(APP_ID, SETTINGS_ID);
}

#[test]
fn settings_path_derived_from_app_id() {
    let expected = format!("/{}/", APP_ID.replace('.', "/"));
    assert_eq!(SETTINGS_PATH, expected);
}

#[test]
fn config_dir_is_simple_name() {
    assert!(!CONFIG_DIR.contains('/'));
}

#[test]
fn production_profile_matches_existing_identity() {
    let profile = app_profile_from_dev_mode(false);
    assert_eq!(profile.app_id, APP_ID);
    assert_eq!(profile.icon_name, APP_ID);
    assert_eq!(profile.config_dir, CONFIG_DIR);
    assert_eq!(profile.state_dir, STATE_DIR);
    assert_eq!(profile.display_name, APP_NAME);
    assert!(!profile.is_development);
}

#[test]
fn development_profile_uses_distinct_identity_state_and_labeling() {
    let profile = app_profile_from_dev_mode(true);
    assert_eq!(profile.app_id, "io.github.IllyaYalovyy.rttx.Devel");
    assert_eq!(profile.icon_name, "io.github.IllyaYalovyy.rttx.Devel");
    assert_eq!(profile.config_dir, "rttx-devel");
    assert_eq!(profile.state_dir, "rttx-devel");
    assert_eq!(profile.display_name, "rttx (Devel)");
    assert_eq!(profile.badge_label, Some("Devel"));
    assert!(profile.is_development);
}

#[test]
fn settings_path_follows_runtime_settings_id() {
    let production = app_profile_from_dev_mode(false);
    let development = app_profile_from_dev_mode(true);

    assert_eq!(
        production.settings_path,
        format!("/{}/", production.settings_id.replace('.', "/"))
    );
    assert_eq!(
        development.settings_path,
        format!("/{}/", development.settings_id.replace('.', "/"))
    );
}

#[test]
fn config_dir_path_joins_base_with_active_profile_directory() {
    let production = app_profile_from_dev_mode(false);
    let development = app_profile_from_dev_mode(true);
    let base = "/tmp/rttx-profile-test";

    assert_eq!(config_dir_path_for(base, production), "/tmp/rttx-profile-test/rttx");
    assert_eq!(
        config_dir_path_for(base, development),
        "/tmp/rttx-profile-test/rttx-devel"
    );
}

#[test]
fn state_dir_path_uses_client_subdir() {
    let production = app_profile_from_dev_mode(false);
    let development = app_profile_from_dev_mode(true);
    let base = "/tmp/state";

    assert_eq!(state_dir_path_for(base, production), "/tmp/state/rttx/client");
    assert_eq!(
        state_dir_path_for(base, development),
        "/tmp/state/rttx-devel/client"
    );
}

#[test]
fn state_and_config_dirs_are_disjoint() {
    let profile = app_profile_from_dev_mode(false);
    let config = config_dir_path_for("/xdg/config", profile);
    let state = state_dir_path_for("/xdg/state", profile);
    assert!(!std::path::Path::new(&state).starts_with(&config));
    assert!(!std::path::Path::new(&config).starts_with(&state));
}

#[test]
fn development_icon_search_path_is_under_checkout_data() {
    assert_eq!(dev_icon_search_path("/src/rttx"), "/src/rttx/data/icons");
}

#[test]
fn gettext_domain_matches_app_name() {
    assert_eq!(APP_NAME, "rttx");
}

#[test]
fn project_urls_target_repository() {
    assert!(PROJECT_WEBSITE.starts_with("https://github.com/"));
    assert!(ISSUE_TRACKER.starts_with(PROJECT_WEBSITE));
}

#[test]
fn development_icon_search_path_contains_dev_icon_asset() {
    // The icon theme lookup that GTK performs under the search path, as a
    // path; the asset itself belongs to the source checkout.
    let manifest_dir = "/src/clients/rttx";
    let icon = format!("{}/hicolor/scalable/apps/{DEV_ICON_NAME}.svg", dev_icon_search_path(manifest_dir));
    assert_eq!(icon, format!("{manifest_dir}/data/icons/hicolor/scalable/apps/io.github.IllyaYalovyy.rttx.Devel.svg"));
}
