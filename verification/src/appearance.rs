//! Style sheets of the application window.

use vstd::prelude::*;

verus! {

/// Application-wide style sheet: terminal panes, headers, bell flash and
/// workspace activity markers.
pub const APP_CSS: &'static str = "\
    .terminal-pane {
        border-radius: 10px;
        border: 1px solid alpha(@window_fg_color, 0.10);
        background: alpha(@view_bg_color, 0.78);
    }
    .terminal-pane-active {
        border-color: alpha(@accent_bg_color, 0.85);
        background: alpha(@view_bg_color, 0.92);
    }
    .terminal-header {
        padding: 6px 8px;
        border-top-left-radius: 10px;
        border-top-right-radius: 10px;
        border-bottom: 1px solid alpha(@window_fg_color, 0.08);
        background: alpha(@headerbar_bg_color, 0.72);
    }
    .terminal-pane-active .terminal-header {
        background: alpha(@accent_bg_color, 0.14);
    }
    .terminal-scroller {
        background: transparent;
    }
    vte-terminal {
        margin: 2px 6px;
    }
    @keyframes bell-flash {
        from { background-color: alpha(@warning_color, 0.4); }
        to   { background-color: transparent; }
    }
    .bell-flash {
        animation: bell-flash 0.15s ease-out;
    }
    @keyframes activity-pulse {
        0%   { box-shadow: inset 3px 0 0 0 alpha(@accent_bg_color, 0.9); }
        50%  { box-shadow: inset 3px 0 0 0 alpha(@accent_bg_color, 0.4); }
        100% { box-shadow: inset 3px 0 0 0 alpha(@accent_bg_color, 0.9); }
    }
    .session-activity-active {
        box-shadow: inset 3px 0 0 0 @accent_bg_color;
        animation: activity-pulse 1.8s ease-in-out infinite;
    }
    .session-activity-idle {
        box-shadow: inset 3px 0 0 0 alpha(@accent_bg_color, 0.45);
    }
    .session-row .subtitle {
        opacity: 0.55;
    }";

/// Workspace accent colors on a dark background.
pub const ACCENT_CSS_DARK: &'static str = "\
    .accent-blue   { color: @blue_3; }
    .accent-green  { color: @green_3; }
    .accent-yellow { color: @yellow_3; }
    .accent-red    { color: @red_3; }
    .accent-purple { color: @purple_3; }
    .accent-pink   { color: @pink_3; }
    .accent-teal   { color: @teal_3; }
    .accent-orange { color: @orange_3; }";

/// Workspace accent colors on a light background.
pub const ACCENT_CSS_LIGHT: &'static str = "\
    .accent-blue   { color: @blue_5; }
    .accent-green  { color: @green_5; }
    .accent-yellow { color: @yellow_5; }
    .accent-red    { color: @red_5; }
    .accent-purple { color: @purple_5; }
    .accent-pink   { color: @pink_5; }
    .accent-teal   { color: @teal_5; }
    .accent-orange { color: @orange_5; }";

/// The accent color style sheet for a dark or a light color scheme.
pub fn accent_css_for_dark(is_dark: bool) -> (css: &'static str)
    ensures
        css@ == if is_dark {
            ACCENT_CSS_DARK@
        } else {
            ACCENT_CSS_LIGHT@
        },
{
    if is_dark {
        ACCENT_CSS_DARK
    } else {
        ACCENT_CSS_LIGHT
    }
}

} // verus!
