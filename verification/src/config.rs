//! Application identity and directory layout, for the production and the
//! development profile.

use vstd::prelude::*;

use crate::text::{join_path, join_path_exec, str_eq};

verus! {

pub const APP_NAME: &'static str = "rttx";
pub const APP_ID: &'static str = "io.github.IllyaYalovyy.rttx";
pub const DEV_APP_NAME: &'static str = "rttx (Devel)";
pub const DEV_APP_ID: &'static str = "io.github.IllyaYalovyy.rttx.Devel";
pub const DEV_ICON_NAME: &'static str = "io.github.IllyaYalovyy.rttx.Devel";
pub const DEVELOPER_NAME: &'static str = "Illya Yalovyy";
pub const PROJECT_WEBSITE: &'static str = "https://github.com/IllyaYalovyy/rttx";
pub const ISSUE_TRACKER: &'static str = "https://github.com/IllyaYalovyy/rttx/issues";
pub const SPONSORS_URL: &'static str = "https://github.com/sponsors/IllyaYalovyy";
/// Environment variable that selects the development profile.
pub const DEV_MODE_ENV: &'static str = "RTTX_DEV_MODE";

/// `GSettings` schema ids and paths.
pub const SETTINGS_ID: &'static str = "io.github.IllyaYalovyy.rttx";
pub const SETTINGS_PATH: &'static str = "/io/github/IllyaYalovyy/rttx/";
pub const DEV_SETTINGS_ID: &'static str = "io.github.IllyaYalovyy.rttx.Devel";
pub const DEV_SETTINGS_PATH: &'static str = "/io/github/IllyaYalovyy/rttx/Devel/";

/// Config directory name under `XDG_CONFIG_HOME`.
pub const CONFIG_DIR: &'static str = "rttx";
pub const DEV_CONFIG_DIR: &'static str = "rttx-devel";
pub const SCHEMES_DIR: &'static str = "schemes";

/// State directory name under `$XDG_STATE_HOME`; the client owns `client/`
/// below it.
pub const STATE_DIR: &'static str = "rttx";
pub const DEV_STATE_DIR: &'static str = "rttx-devel";
pub const CLIENT_SUBDIR: &'static str = "client";

/// Identity and directory names of one application profile.
#[derive(Debug, Clone, Copy, PartialEq, Eq)]
pub struct AppProfile {
    pub app_id: &'static str,
    pub icon_name: &'static str,
    pub display_name: &'static str,
    pub config_dir: &'static str,
    pub state_dir: &'static str,
    pub settings_id: &'static str,
    pub settings_path: &'static str,
    pub badge_label: Option<&'static str>,
    pub is_development: bool,
}

/// The profile fields, as text: `(app id, icon, display name, config dir,
/// state dir, settings id, settings path, badge, development)`.
pub open spec fn profile_fields(p: AppProfile) -> (
    Seq<char>,
    Seq<char>,
    Seq<char>,
    Seq<char>,
    Seq<char>,
    Seq<char>,
    Seq<char>,
    Option<Seq<char>>,
    bool,
) {
    (
        p.app_id@,
        p.icon_name@,
        p.display_name@,
        p.config_dir@,
        p.state_dir@,
        p.settings_id@,
        p.settings_path@,
        match p.badge_label {
            Some(b) => Some(b@),
            None => None,
        },
        p.is_development,
    )
}

/// The profile for development mode on or off.
pub open spec fn profile_spec(is_dev: bool) -> (
    Seq<char>,
    Seq<char>,
    Seq<char>,
    Seq<char>,
    Seq<char>,
    Seq<char>,
    Seq<char>,
    Option<Seq<char>>,
    bool,
) {
    if is_dev {
        (
            DEV_APP_ID@,
            DEV_ICON_NAME@,
            DEV_APP_NAME@,
            DEV_CONFIG_DIR@,
            DEV_STATE_DIR@,
            DEV_SETTINGS_ID@,
            DEV_SETTINGS_PATH@,
            Some("Devel"@),
            true,
        )
    } else {
        (APP_ID@, APP_ID@, APP_NAME@, CONFIG_DIR@, STATE_DIR@, SETTINGS_ID@, SETTINGS_PATH@, None, false)
    }
}

/// The profile for development mode on or off.
pub fn app_profile_from_dev_mode(is_dev: bool) -> (p: AppProfile)
    ensures
        profile_fields(p) == profile_spec(is_dev),
{
    if is_dev {
        AppProfile {
            app_id: DEV_APP_ID,
            icon_name: DEV_ICON_NAME,
            display_name: DEV_APP_NAME,
            config_dir: DEV_CONFIG_DIR,
            state_dir: DEV_STATE_DIR,
            settings_id: DEV_SETTINGS_ID,
            settings_path: DEV_SETTINGS_PATH,
            badge_label: Some("Devel"),
            is_development: true,
        }
    } else {
        AppProfile {
            app_id: APP_ID,
            icon_name: APP_ID,
            display_name: APP_NAME,
            config_dir: CONFIG_DIR,
            state_dir: STATE_DIR,
            settings_id: SETTINGS_ID,
            settings_path: SETTINGS_PATH,
            badge_label: None,
            is_development: false,
        }
    }
}

/// Development mode is on when the variable is set to something other than
/// empty or `0`.
pub open spec fn dev_mode_spec(value: Option<Seq<char>>) -> bool {
    match value {
        Some(v) => v.len() > 0 && v != "0"@,
        None => false,
    }
}

/// Whether the value of [`DEV_MODE_ENV`] (if set) turns development mode on.
pub fn dev_mode_enabled(value: Option<&str>) -> (b: bool)
    ensures
        b == dev_mode_spec(match value {
            Some(v) => Some(v@),
            None => None,
        }),
{
    match value {
        Some(v) => v.unicode_len() > 0 && !str_eq(v, "0"),
        None => false,
    }
}

/// The active profile, given the value of [`DEV_MODE_ENV`] (if set).
pub fn app_profile(dev_mode_value: Option<&str>) -> (p: AppProfile)
    ensures
        profile_fields(p) == profile_spec(dev_mode_spec(match dev_mode_value {
            Some(v) => Some(v@),
            None => None,
        })),
{
    app_profile_from_dev_mode(dev_mode_enabled(dev_mode_value))
}

/// Whether development mode is on for the value of [`DEV_MODE_ENV`].
pub open spec fn dev_for(dev_mode_value: Option<&str>) -> bool {
    dev_mode_spec(match dev_mode_value {
        Some(v) => Some(v@),
        None => None,
    })
}

/// Application id of the active profile.
pub fn app_id(dev_mode_value: Option<&str>) -> (s: &'static str)
    ensures
        s@ == profile_spec(dev_for(dev_mode_value)).0,
{
    app_profile(dev_mode_value).app_id
}

/// Icon name of the active profile.
pub fn icon_name(dev_mode_value: Option<&str>) -> (s: &'static str)
    ensures
        s@ == profile_spec(dev_for(dev_mode_value)).1,
{
    app_profile(dev_mode_value).icon_name
}

/// Display name of the active profile.
pub fn display_name(dev_mode_value: Option<&str>) -> (s: &'static str)
    ensures
        s@ == profile_spec(dev_for(dev_mode_value)).2,
{
    app_profile(dev_mode_value).display_name
}

/// Badge shown next to the name, in development mode.
pub fn badge_label(dev_mode_value: Option<&str>) -> (s: Option<&'static str>)
    ensures
        match s {
            Some(b) => profile_spec(dev_for(dev_mode_value)).7 == Some(b@),
            None => profile_spec(dev_for(dev_mode_value)).7 is None,
        },
{
    app_profile(dev_mode_value).badge_label
}

/// Config directory name of the active profile.
pub fn config_dir_name(dev_mode_value: Option<&str>) -> (s: &'static str)
    ensures
        s@ == profile_spec(dev_for(dev_mode_value)).3,
{
    app_profile(dev_mode_value).config_dir
}

/// `GSettings` schema id of the active profile.
pub fn settings_id(dev_mode_value: Option<&str>) -> (s: &'static str)
    ensures
        s@ == profile_spec(dev_for(dev_mode_value)).5,
{
    app_profile(dev_mode_value).settings_id
}

/// `GSettings` path of the active profile.
pub fn settings_path(dev_mode_value: Option<&str>) -> (s: &'static str)
    ensures
        s@ == profile_spec(dev_for(dev_mode_value)).6,
{
    app_profile(dev_mode_value).settings_path
}

/// The profile's cache directory below the cache base directory, which
/// holds its logs and its disposable runtime cache.
pub fn cache_dir_path_for(cache_base: &str, dev_mode_value: Option<&str>) -> (p: String)
    ensures
        p@ == join_path(cache_base@, if dev_for(dev_mode_value) {
            DEV_CONFIG_DIR@
        } else {
            CONFIG_DIR@
        }),
{
    let dir_name = if is_development(dev_mode_value) {
        DEV_CONFIG_DIR
    } else {
        CONFIG_DIR
    };
    join_path_exec(cache_base, dir_name)
}

/// Whether the development profile is active.
pub fn is_development(dev_mode_value: Option<&str>) -> (b: bool)
    ensures
        b == dev_for(dev_mode_value),
{
    app_profile(dev_mode_value).is_development
}

/// The profile's config directory below the config base directory.
pub fn config_dir_path_for(base: &str, profile: AppProfile) -> (p: String)
    ensures
        p@ == join_path(base@, profile.config_dir@),
{
    join_path_exec(base, profile.config_dir)
}

/// The profile's client state directory below the state base directory.
pub fn state_dir_path_for(base: &str, profile: AppProfile) -> (p: String)
    ensures
        p@ == join_path(join_path(base@, profile.state_dir@), CLIENT_SUBDIR@),
{
    let dir = join_path_exec(base, profile.state_dir);
    join_path_exec(dir.as_str(), CLIENT_SUBDIR)
}

/// The state base directory: `$XDG_STATE_HOME` when set, else
/// `~/.local/state`.
pub fn state_home(xdg_state_home: Option<&str>, home: &str) -> (p: String)
    ensures
        p@ == match xdg_state_home {
            Some(x) => x@,
            None => join_path(join_path(home@, ".local"@), "state"@),
        },
{
    match xdg_state_home {
        Some(x) => crate::text::owned(x),
        None => {
            let local = join_path_exec(home, ".local");
            join_path_exec(local.as_str(), "state")
        },
    }
}

/// Icon directory of a source checkout.
pub fn dev_icon_search_path(manifest_dir: &str) -> (p: String)
    ensures
        p@ == join_path(join_path(manifest_dir@, "data"@), "icons"@),
{
    let data = join_path_exec(manifest_dir, "data");
    join_path_exec(data.as_str(), "icons")
}

/// The active profile's client state directory: below `$XDG_STATE_HOME`
/// when set, else below `~/.local/state`.
pub fn state_dir_path(xdg_state_home: Option<&str>, home: &str, dev_mode_value: Option<&str>) -> (p: String)
    ensures
        p@ == join_path(
            join_path(
                match xdg_state_home {
                    Some(x) => x@,
                    None => join_path(join_path(home@, ".local"@), "state"@),
                },
                profile_spec(dev_for(dev_mode_value)).4,
            ),
            CLIENT_SUBDIR@,
        ),
{
    let base = state_home(xdg_state_home, home);
    state_dir_path_for(base.as_str(), app_profile(dev_mode_value))
}

} // verus!
