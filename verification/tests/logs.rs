//! Daily log retention and the log directory.

use rttx::appearance::{accent_css_for_dark, ACCENT_CSS_DARK, ACCENT_CSS_LIGHT, APP_CSS};
use rttx::config::cache_dir_path_for;
use rttx::logs::{stale_log_files, LOG_FILE_PREFIX, LOG_KEEP_DAYS};

fn names(list: &[&str]) -> Vec<String> {
    list.iter().map(|s| s.to_string()).collect()
}

fn remaining(list: &[&str], keep_days: usize) -> Vec<String> {
    let all = names(list);
    let stale = stale_log_files(&all, "rttx.log", keep_days);
    let mut rest: Vec<String> = all.into_iter().filter(|n| !stale.contains(n)).collect();
    rest.sort();
    rest
}

#[test]
fn cleanup_old_logs_keeps_recent_files() {
    let rest = remaining(&["rttx.log.2025-01-01", "rttx.log.2025-01-02", "rttx.log.2025-01-03"], 2);
    assert_eq!(rest.len(), 3);
}

#[test]
fn cleanup_old_logs_removes_excess_files() {
    let rest = remaining(
        &[
            "rttx.log.2025-01-01",
            "rttx.log.2025-01-02",
            "rttx.log.2025-01-03",
            "rttx.log.2025-01-04",
            "rttx.log.2025-01-05",
        ],
        2,
    );
    assert_eq!(rest, vec!["rttx.log.2025-01-03", "rttx.log.2025-01-04", "rttx.log.2025-01-05"]);
}

#[test]
fn cleanup_old_logs_ignores_unrelated_files() {
    let rest = remaining(&["rttx.log.2025-01-01", "rttx.log.2025-01-02", "other.txt"], 0);
    assert_eq!(rest, vec!["other.txt", "rttx.log.2025-01-02"]);
}

#[test]
fn stale_logs_come_in_the_order_given() {
    let all = names(&["rttx.log.2025-01-03", "rttx.log.2025-01-01", "rttx.log.2025-01-04", "rttx.log.2025-01-02"]);
    assert_eq!(stale_log_files(&all, "rttx.log", 1), names(&["rttx.log.2025-01-01", "rttx.log.2025-01-02"]));
}

#[test]
fn stale_logs_of_an_empty_directory() {
    assert!(stale_log_files(&[], "rttx.log", 0).is_empty());
}

#[test]
fn current_log_without_date_suffix_sorts_first() {
    // The bare prefix is the oldest name of the series.
    let all = names(&["rttx.log", "rttx.log.2025-01-01"]);
    assert_eq!(stale_log_files(&all, "rttx.log", 0), names(&["rttx.log"]));
}

#[test]
fn retention_defaults() {
    assert_eq!(LOG_FILE_PREFIX, "rttx.log");
    assert_eq!(LOG_KEEP_DAYS, 3);
}

#[test]
fn cache_dir_is_per_profile() {
    assert_eq!(cache_dir_path_for("/home/u/.cache", None), "/home/u/.cache/rttx");
    assert_eq!(cache_dir_path_for("/home/u/.cache", Some("1")), "/home/u/.cache/rttx-devel");
}

#[test]
fn accent_css_follows_dark_mode() {
    assert_eq!(accent_css_for_dark(true), ACCENT_CSS_DARK);
    assert_eq!(accent_css_for_dark(false), ACCENT_CSS_LIGHT);
    assert!(ACCENT_CSS_DARK.contains("@blue_3"));
    assert!(ACCENT_CSS_LIGHT.contains("@blue_5"));
    assert!(APP_CSS.contains(".terminal-pane"));
}
