//! Bookmarks: commands, summaries and session start-up.

use rttx::bookmarks::{Bookmark, matches_query, reorder};
use rttx::session::recovery::{PaneTarget};


#[test]
fn folder_bookmark_builds_cd_command() {
    let mut bookmark = Bookmark::new("Code");
    bookmark.directory = Some("/home/user/Projects/rttx".into());

    assert_eq!(bookmark.command().as_deref(), Some("cd '/home/user/Projects/rttx'"));
}

#[test]
fn ssh_bookmark_builds_ssh_command() {
    let mut bookmark = Bookmark::new("Prod");
    bookmark.ssh_target = Some("-p 2222 root@example.com".into());

    assert_eq!(bookmark.command().as_deref(), Some("ssh -p 2222 root@example.com"));
}

#[test]
fn combined_bookmark_builds_remote_cd_command() {
    let mut bookmark = Bookmark::new("Remote Ops");
    bookmark.directory = Some("/srv/app".into());
    bookmark.ssh_target = Some("deploy@example.com".into());

    assert_eq!(
        bookmark.command().as_deref(),
        Some("ssh -t deploy@example.com 'cd '\"'\"'/srv/app'\"'\"''")
    );
}

#[test]
fn pane_target_preserves_remote_folder_for_plain_ssh_bookmarks() {
    let mut bookmark = Bookmark::new("Remote Shell");
    bookmark.directory = Some("/srv/app".into());
    bookmark.ssh_target = Some("deploy@example.com".into());

    assert_eq!(
        bookmark.pane_target(),
        Some(PaneTarget::RemoteShell {
            ssh_target: "deploy@example.com".into(),
            remote_folder: Some("/srv/app".into()),
        })
    );
}

#[test]
fn empty_bookmark_is_not_actionable() {
    let bookmark = Bookmark::new("Empty");
    assert!(!bookmark.is_actionable());
    assert_eq!(bookmark.command(), None);
}

#[test]
fn matches_query_checks_title_summary_and_command() {
    let mut bookmark = Bookmark::new("Prod Web");
    bookmark.directory = Some("/srv/app".into());
    bookmark.ssh_target = Some("deploy@example.com".into());

    assert!(matches_query(&bookmark, "prod"));
    assert!(matches_query(&bookmark, "srv/app"));
    assert!(matches_query(&bookmark, "deploy@example.com"));
    assert!(!matches_query(&bookmark, "staging"));
}

#[test]
fn matches_query_treats_blank_query_as_match_all() {
    let bookmark = Bookmark::new("Anything");
    assert!(matches_query(&bookmark, ""));
    assert!(matches_query(&bookmark, "   "));
}

#[test]
fn folder_bookmark_session_initial_cwd_is_the_directory() {
    let mut bookmark = Bookmark::new("Work");
    bookmark.directory = Some("/home/user/work".into());

    assert_eq!(bookmark.session_initial_cwd(), Some("/home/user/work"));
}

#[test]
fn folder_bookmark_session_startup_command_is_none() {
    let mut bookmark = Bookmark::new("Work");
    bookmark.directory = Some("/home/user/work".into());

    assert_eq!(bookmark.session_startup_command(), None);
}

#[test]
fn ssh_bookmark_session_initial_cwd_is_none() {
    let mut bookmark = Bookmark::new("Prod");
    bookmark.ssh_target = Some("deploy@example.com".into());
    bookmark.directory = Some("/srv/app".into());

    assert_eq!(bookmark.session_initial_cwd(), None);
}

#[test]
fn ssh_bookmark_session_startup_command_is_ssh() {
    let mut bookmark = Bookmark::new("Prod");
    bookmark.ssh_target = Some("deploy@example.com".into());

    assert_eq!(bookmark.session_startup_command().as_deref(), Some("ssh deploy@example.com"));
}

#[test]
fn ssh_with_dir_session_startup_command_includes_cd() {
    let mut bookmark = Bookmark::new("Remote Dev");
    bookmark.ssh_target = Some("deploy@example.com".into());
    bookmark.directory = Some("/srv/app".into());

    assert_eq!(bookmark.session_initial_cwd(), None);
    assert_eq!(
        bookmark.session_startup_command().as_deref(),
        Some("ssh -t deploy@example.com 'cd '\"'\"'/srv/app'\"'\"''")
    );
}

#[test]
fn bookmarks_reorder_moves_item_to_target_position() {
    let mut items = vec![
        Bookmark { uuid: "a".into(), ..Bookmark::new("A") },
        Bookmark { uuid: "b".into(), ..Bookmark::new("B") },
        Bookmark { uuid: "c".into(), ..Bookmark::new("C") },
    ];

    reorder(&mut items, "c", "a");
    let uuids: Vec<&str> = items.iter().map(|b| b.uuid.as_str()).collect();
    assert_eq!(uuids, vec!["c", "a", "b"]);
}

#[test]
fn bookmarks_reorder_noop_for_unknown_uuid() {
    let mut items = vec![
        Bookmark { uuid: "a".into(), ..Bookmark::new("A") },
        Bookmark { uuid: "b".into(), ..Bookmark::new("B") },
    ];

    reorder(&mut items, "z", "a");
    let uuids: Vec<&str> = items.iter().map(|b| b.uuid.as_str()).collect();
    assert_eq!(uuids, vec!["a", "b"]);
}

#[test]
fn ssh_bookmark_reports_remote_host() {
    let mut b = Bookmark::new("Remote");
    b.ssh_target = Some("deploy@example.com".into());
    assert_eq!(b.remote_host(), Some("deploy@example.com"));
}

#[test]
fn local_bookmark_reports_no_remote_host() {
    let mut b = Bookmark::new("Local");
    b.directory = Some("/home/user".into());
    assert_eq!(b.remote_host(), None);
}

#[test]
fn empty_ssh_target_reports_no_remote_host() {
    let mut b = Bookmark::new("Empty");
    b.ssh_target = Some("  ".into());
    assert_eq!(b.remote_host(), None);
}

#[test]
fn new_workspace_tooltip_includes_host_for_remote() {
    let mut b = Bookmark::new("Deploy");
    b.ssh_target = Some("deploy@example.com".into());
    assert_eq!(b.new_workspace_tooltip(), "New workspace on deploy@example.com");
}

#[test]
fn new_workspace_tooltip_is_generic_for_local() {
    let b = Bookmark::new("Local");
    assert_eq!(b.new_workspace_tooltip(), "New workspace from bookmark");
}

#[test]
fn new_workspace_icon_differs_for_remote() {
    let mut remote = Bookmark::new("Remote");
    remote.ssh_target = Some("host".into());
    let local = Bookmark::new("Local");
    assert_ne!(remote.new_workspace_icon(), local.new_workspace_icon());
}

#[test]
fn remote_command_returns_inner_command_without_ssh() {
    let mut b = Bookmark::new("Deploy");
    b.ssh_target = Some("deploy@example.com".into());
    b.directory = Some("/srv/app".into());

    let full = b.command().unwrap();
    assert!(full.starts_with("ssh"), "full command should start with ssh: {full}");

    let inner = b.remote_command().unwrap();
    assert!(!inner.contains("ssh"), "remote_command must not contain ssh: {inner}");
    assert!(inner.contains("/srv/app"), "remote_command must contain directory");
}

#[test]
fn remote_command_for_ssh_only_bookmark_is_none() {
    let mut b = Bookmark::new("Shell");
    b.ssh_target = Some("deploy@example.com".into());
    assert!(b.remote_command().is_none(), "SSH-only bookmark has no inner command to run");
}

#[test]
fn remote_command_for_local_bookmark_is_none() {
    let mut b = Bookmark::new("Local");
    b.directory = Some("/home/user".into());
    assert!(b.remote_command().is_none());
}
