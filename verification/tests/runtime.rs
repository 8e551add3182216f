//! Runtime metadata, connection state and presentation.

use rttx::daemon::DaemonError;
use rttx::runtime::{
    advance_connection_status, classify_connection_problem, connection_icon, pane_description,
    present_connection_status, present_workspace_actions, reconcile_bindings, workspace_connection_summary,
    workspace_menu_items, ConnectionEvent, ConnectionProblem, ConnectionStatus, RuntimeEndpoint, WorkspaceMenuContext,
    WorkspacePolicy, WorkspaceRuntime,
};
use rttx::str_map::StrMap;


#[test]
fn managed_runtime_initializes_placeholder_bindings() {
    let runtime = WorkspaceRuntime::managed_local(
        WorkspacePolicy::Ephemeral,
        &["pane-a".into(), "pane-b".into()],
    );

    assert!(runtime.is_managed());
    assert_eq!(runtime.policy, WorkspacePolicy::Ephemeral);
    assert_eq!(*runtime.pane_bindings.get("pane-a").unwrap(), "pane-a");
    assert_eq!(*runtime.pane_bindings.get("pane-b").unwrap(), "pane-b");
    assert!(runtime.is_layout_pane_pending("pane-a"));
    assert!(runtime.is_layout_pane_pending("pane-b"));
}

#[test]
fn replacing_layout_terminal_uuid_preserves_binding() {
    let mut runtime =
        WorkspaceRuntime::managed_local(WorkspacePolicy::Persistent, &["old".into()]);
    runtime.bind_runtime_pane("old", "daemon-pane");

    runtime.replace_layout_terminal_uuid("old", "new");

    assert_eq!(runtime.pane_bindings.get("old"), None);
    assert_eq!(runtime.pane_bindings.get("new").map(String::as_str), Some("daemon-pane"));
    assert!(!runtime.is_layout_pane_pending("new"));
}

#[test]
fn reconciliation_keeps_explicit_bindings_and_marks_missing_objects() {
    let layout = vec!["left".into(), "right".into()];
    let mut bindings = StrMap::new();
    bindings.insert("left".to_string(), "pane-1".to_string());
    bindings.insert("right".to_string(), "missing-pane".to_string());
    let runtime_panes = vec!["pane-1".into(), "pane-2".into()];

    let reconciled = reconcile_bindings(&layout, &bindings, &runtime_panes);

    assert_eq!(reconciled.bindings.len(), 1);
    assert_eq!(*reconciled.bindings.get("left").unwrap(), "pane-1");
    assert_eq!(reconciled.recovered_runtime_panes, vec!["pane-2"]);
    assert_eq!(reconciled.disconnected_layout_panes, vec!["right"]);
}

#[test]
fn reconciliation_accepts_same_id_match_without_position_inference() {
    let layout = vec!["pane-a".into()];
    let reconciled = reconcile_bindings(&layout, &StrMap::new(), &["pane-a".into()]);
    assert_eq!(*reconciled.bindings.get("pane-a").unwrap(), "pane-a");
    assert!(reconciled.recovered_runtime_panes.is_empty());
    assert!(reconciled.disconnected_layout_panes.is_empty());
}

#[test]
fn classify_connection_problem_marks_only_daemon_unavailable_as_transient() {
    assert!(classify_connection_problem(&DaemonError::Disconnected).is_transient());
    assert!(
        !classify_connection_problem(&DaemonError::VersionMismatch { server: 2, client: 1 })
            .is_transient()
    );
    assert!(
        !classify_connection_problem(&DaemonError::ServerError {
            code: 9,
            message: "owned".into(),
        })
        .is_transient()
    );
}

/// `ERR_PANE_NOT_FOUND` (code 6) classifies as non-transient `UserActionRequired`.
///
/// The `daemon_bridge` handles this specially for `ClosePane` by emitting
/// `PaneClosed` instead of blocking the workspace (see #309).
#[test]
fn classify_pane_not_found_is_non_transient_user_action() {
    let problem = classify_connection_problem(&DaemonError::ServerError {
        code: 6,
        message: "pane not found".into(),
    });
    assert!(!problem.is_transient());
    assert_eq!(problem, ConnectionProblem::UserActionRequired("pane not found".into()));
}

#[test]
fn connection_state_machine_distinguishes_retryable_and_blocked_failures() {
    let reconnecting = advance_connection_status(
        &ConnectionStatus::Connecting,
        ConnectionEvent::RetryScheduled { attempt: 1, retry_in_secs: 3 },
    );
    assert_eq!(reconnecting, ConnectionStatus::Reconnecting { attempt: 1, retry_in_secs: 3 });

    let blocked = advance_connection_status(
        &ConnectionStatus::Connecting,
        ConnectionEvent::Failed(ConnectionProblem::OwnershipConflict),
    );
    assert_eq!(blocked, ConnectionStatus::Blocked(ConnectionProblem::OwnershipConflict));
}

#[test]
fn connection_presentation_header_and_input_for_connected_states() {
    let connected = present_connection_status(&ConnectionStatus::Connected);
    assert_eq!(connected.header_label, "Connected");
    assert!(connected.input_enabled);

    let recovered = present_connection_status(&ConnectionStatus::Recovered);
    assert_eq!(recovered.header_label, "Connected");
    assert!(recovered.input_enabled);
}

#[test]
fn connection_presentation_disables_input_for_disconnected_states() {
    let reconnecting = present_connection_status(&ConnectionStatus::Reconnecting {
        attempt: 2,
        retry_in_secs: 4,
    });
    assert_eq!(reconnecting.header_label, "Retry 4s");
    assert!(!reconnecting.input_enabled);

    let blocked = present_connection_status(&ConnectionStatus::Blocked(
        ConnectionProblem::PermissionDenied,
    ));
    assert_eq!(blocked.header_label, "Action Required");
    assert!(!blocked.input_enabled);

    let disconnected = present_connection_status(&ConnectionStatus::Disconnected);
    assert_eq!(disconnected.header_label, "Disconnected");
    assert!(!disconnected.input_enabled);
}

#[test]
fn workspace_connection_summary_with_pane_info() {
    assert_eq!(
        workspace_connection_summary(&RuntimeEndpoint::Local, Some("vim main.rs")),
        "vim main.rs"
    );
    assert_eq!(workspace_connection_summary(&RuntimeEndpoint::Local, None), "");
    assert_eq!(workspace_connection_summary(&RuntimeEndpoint::Local, Some("")), "");
    assert_eq!(
        workspace_connection_summary(
            &RuntimeEndpoint::Remote { host: "builder.example".into() },
            Some("~/src"),
        ),
        "builder.example · ~/src"
    );
}

#[test]
fn workspace_connection_summary_for_remote_endpoint() {
    let endpoint = RuntimeEndpoint::Remote { host: "builder.example".into() };

    assert_eq!(workspace_connection_summary(&endpoint, Some("bash")), "builder.example · bash");
    assert_eq!(workspace_connection_summary(&endpoint, None), "builder.example");
}

#[test]
fn pane_description_shows_full_path_and_command() {
    // CWD always wins — title is ignored when CWD is available.
    let desc = pane_description(Some("vim main.rs"), Some("/tmp/project"), None);
    assert_eq!(desc, Some("/tmp/project".into()));
}

#[test]
fn pane_description_path_only_when_title_is_generic() {
    let desc = pane_description(Some("bash"), Some("/tmp/project"), None);
    assert_eq!(desc, Some("/tmp/project".into()));
}

#[test]
fn pane_description_prompt_title_ignored_when_cwd_present() {
    // Shell prompt sets VTE title to user@host:path — always redundant.
    let desc = pane_description(Some("yalovyyi@host:~/work"), Some("/home/yalovyyi/work"), None);
    assert!(!desc.as_deref().unwrap_or("").contains('@'));
}

#[test]
fn pane_description_falls_back_to_useful_title() {
    assert_eq!(pane_description(Some("vim main.rs"), None, None), Some("vim main.rs".into()));
}

#[test]
fn pane_description_filters_generic_titles() {
    assert_eq!(pane_description(Some("Terminal (persistent)"), None, None), None);
    assert_eq!(pane_description(Some("bash"), None, None), None);
    assert_eq!(pane_description(Some("zsh"), None, None), None);
}

#[test]
fn pane_description_shows_full_cwd() {
    assert_eq!(pane_description(None, Some("/tmp/project"), None), Some("/tmp/project".into()));
    assert_eq!(pane_description(None, Some("/"), None), Some("/".into()));
}

/// Regression for #536: sidebar subtitle uses CWD, not the combined
/// pane header title, so the "app : path" format never leaks into the
/// sidebar.
#[test]
fn pane_description_uses_cwd_not_combined_header_title() {
    // Even if the pane header shows "bash : /tmp", the sidebar should
    // show just the CWD path.
    assert_eq!(pane_description(Some("bash : /tmp"), Some("/tmp"), None), Some("/tmp".into()));
    // When CWD is absent, the combined title is not generic and would
    // be shown — but this scenario doesn't arise in practice because
    // the sidebar reads CWD directly from the pane.
    assert_eq!(pane_description(Some("bash : /tmp"), None, None), Some("bash : /tmp".into()));
}

#[test]
fn pane_description_none_when_no_info() {
    assert_eq!(pane_description(None, None, None), None);
    assert_eq!(pane_description(Some(""), None, None), None);
}

#[test]
fn connection_icon_computer_for_local_connected() {
    let icon = connection_icon(&RuntimeEndpoint::Local, &ConnectionStatus::Connected, true);
    assert_eq!(icon.icon_name, "computer-symbolic");
    assert_eq!(icon.css_class, "accent");
}

#[test]
fn connection_icon_shape_constant_for_local_managed() {
    let ep = RuntimeEndpoint::Local;
    for status in [
        ConnectionStatus::Connected,
        ConnectionStatus::Disconnected,
        ConnectionStatus::Recovered,
        ConnectionStatus::Blocked(ConnectionProblem::DaemonUnavailable),
        ConnectionStatus::Connecting,
    ] {
        let icon = connection_icon(&ep, &status, true);
        assert_eq!(icon.icon_name, "computer-symbolic", "shape must not change with status");
    }
}

#[test]
fn connection_icon_color_for_local_managed() {
    let ep = RuntimeEndpoint::Local;
    assert_eq!(connection_icon(&ep, &ConnectionStatus::Connected, true).css_class, "accent");
    assert_eq!(connection_icon(&ep, &ConnectionStatus::Recovered, true).css_class, "accent");
    assert_eq!(
        connection_icon(&ep, &ConnectionStatus::Disconnected, true).css_class,
        "warning"
    );
    assert_eq!(
        connection_icon(
            &ep,
            &ConnectionStatus::Blocked(ConnectionProblem::DaemonUnavailable),
            true
        )
        .css_class,
        "error"
    );
    assert_eq!(
        connection_icon(&ep, &ConnectionStatus::Connecting, true).css_class,
        "dim-label"
    );
}

/// Regression for #935: Reconnecting must use warning color so the tab
/// is visually distinct from initial Connecting (dim-label/gray).
#[test]
fn connection_icon_reconnecting_uses_warning_not_dim_label() {
    let local = RuntimeEndpoint::Local;
    let remote = RuntimeEndpoint::Remote { host: "h".into() };
    let reconnecting = ConnectionStatus::Reconnecting { attempt: 3, retry_in_secs: 5 };

    let local_icon = connection_icon(&local, &reconnecting, true);
    assert_eq!(
        local_icon.css_class, "warning",
        "Reconnecting must use warning color, not dim-label"
    );
    assert_eq!(local_icon.tooltip, "Reconnecting to runtime…");

    let remote_icon = connection_icon(&remote, &reconnecting, true);
    assert_eq!(remote_icon.css_class, "warning");
    assert_eq!(remote_icon.tooltip, "Reconnecting to runtime…");
}

/// Regression for #935: Blocked state tooltip must indicate manual retry.
#[test]
fn connection_icon_blocked_tooltip_mentions_retry() {
    let ep = RuntimeEndpoint::Local;
    let icon = connection_icon(
        &ep,
        &ConnectionStatus::Blocked(ConnectionProblem::DaemonUnavailable),
        true,
    );
    assert_eq!(icon.css_class, "error");
    assert!(
        icon.tooltip.contains("retry"),
        "Blocked tooltip should mention retry: got {:?}",
        icon.tooltip
    );
}

#[test]
fn connection_icon_shape_constant_for_remote() {
    let ep = RuntimeEndpoint::Remote { host: "h".into() };
    for status in [
        ConnectionStatus::Connected,
        ConnectionStatus::Disconnected,
        ConnectionStatus::Recovered,
        ConnectionStatus::Blocked(ConnectionProblem::PermissionDenied),
        ConnectionStatus::Connecting,
        ConnectionStatus::Starting,
        ConnectionStatus::Reconnecting { attempt: 1, retry_in_secs: 5 },
    ] {
        let icon = connection_icon(&ep, &status, true);
        assert_eq!(
            icon.icon_name, "network-server-symbolic",
            "shape must not change with status"
        );
    }
}

#[test]
fn connection_icon_color_for_remote() {
    let ep = RuntimeEndpoint::Remote { host: "h".into() };
    assert_eq!(connection_icon(&ep, &ConnectionStatus::Connected, true).css_class, "accent");
    assert_eq!(connection_icon(&ep, &ConnectionStatus::Recovered, true).css_class, "accent");
    assert_eq!(
        connection_icon(&ep, &ConnectionStatus::Disconnected, true).css_class,
        "warning"
    );
    assert_eq!(
        connection_icon(
            &ep,
            &ConnectionStatus::Blocked(ConnectionProblem::PermissionDenied),
            true
        )
        .css_class,
        "error"
    );
    assert_eq!(
        connection_icon(&ep, &ConnectionStatus::Connecting, true).css_class,
        "dim-label"
    );
}

#[test]
fn connection_icon_direct_uses_terminal_icon() {
    let ep = RuntimeEndpoint::Local;
    let icon = connection_icon(&ep, &ConnectionStatus::Connected, false);
    assert_eq!(icon.icon_name, "utilities-terminal-symbolic");
    assert_eq!(icon.css_class, "accent");
}

#[test]
fn connected_color_consistent_across_all_workspace_types() {
    let local_managed =
        connection_icon(&RuntimeEndpoint::Local, &ConnectionStatus::Connected, true);
    let remote_managed = connection_icon(
        &RuntimeEndpoint::Remote { host: "h".into() },
        &ConnectionStatus::Connected,
        true,
    );
    let direct = connection_icon(&RuntimeEndpoint::Local, &ConnectionStatus::Connected, false);
    assert_eq!(local_managed.css_class, "accent");
    assert_eq!(remote_managed.css_class, "accent");
    assert_eq!(direct.css_class, "accent");
}

#[test]
fn connection_icon_tooltips_describe_state() {
    let remote = RuntimeEndpoint::Remote { host: "h".into() };
    let local = RuntimeEndpoint::Local;

    let connected = connection_icon(&remote, &ConnectionStatus::Connected, true);
    assert_eq!(connected.tooltip, "Connected to remote host");

    let disconnected = connection_icon(&remote, &ConnectionStatus::Disconnected, true);
    assert_eq!(disconnected.tooltip, "Disconnected from runtime");

    let connecting_local = connection_icon(&local, &ConnectionStatus::Connecting, true);
    assert_eq!(connecting_local.tooltip, "Connecting…");

    let connecting_remote = connection_icon(&remote, &ConnectionStatus::Connecting, true);
    assert_eq!(connecting_remote.tooltip, "Connecting…");

    let local_connected = connection_icon(&local, &ConnectionStatus::Connected, true);
    assert_eq!(local_connected.tooltip, "Connected to local runtime");
}

#[test]
fn connection_icon_shape_never_changes_with_status_regression() {
    let local = RuntimeEndpoint::Local;
    let remote = RuntimeEndpoint::Remote { host: "h".into() };
    let statuses = [
        ConnectionStatus::Connected,
        ConnectionStatus::Disconnected,
        ConnectionStatus::Recovered,
        ConnectionStatus::Connecting,
        ConnectionStatus::Blocked(ConnectionProblem::DaemonUnavailable),
    ];
    for s in &statuses {
        assert_eq!(connection_icon(&local, s, true).icon_name, "computer-symbolic");
        assert_eq!(connection_icon(&remote, s, true).icon_name, "network-server-symbolic");
        assert_eq!(connection_icon(&local, s, false).icon_name, "utilities-terminal-symbolic");
    }
}

#[test]
fn workspace_connection_summary_local_returns_empty_without_pane_info() {
    assert!(workspace_connection_summary(&RuntimeEndpoint::Local, None).is_empty());
}

#[test]
fn workspace_actions_for_attached_managed_workspace_shows_destructive_close() {
    let presentation = present_workspace_actions(Some(WorkspacePolicy::Persistent), true, 2);

    assert_eq!(presentation.title, "Close Workspace?");
    assert_eq!(presentation.close_label, "Close Workspace");
    assert!(presentation.body.contains("stop its runtime"));
    assert!(presentation.body.contains("2 panes"));
}

#[test]
fn workspace_actions_for_ephemeral_attached_shows_same_close() {
    let presentation = present_workspace_actions(Some(WorkspacePolicy::Ephemeral), true, 1);

    assert_eq!(presentation.title, "Close Workspace?");
    assert!(presentation.body.contains("stop its runtime"));
}

#[test]
fn workspace_actions_for_detached_managed_workspace_only_offer_close() {
    let presentation = present_workspace_actions(Some(WorkspacePolicy::Persistent), false, 1);

    assert_eq!(presentation.title, "Close Workspace?");
    assert!(presentation.body.contains("not connected to a runtime"));
}

#[test]
fn workspace_actions_for_unmanaged_workspace_keep_simple_close_copy() {
    let presentation = present_workspace_actions(None, false, 3);

    assert_eq!(presentation.title, "Close Workspace?");
    assert_eq!(presentation.close_label, "Close Workspace");
    assert!(presentation.body.contains("3 panes"));
    assert!(presentation.body.contains("running processes"));
}

/// Close dialog copy must never mention detach or terminate.
#[test]
fn workspace_actions_never_mention_detach_or_terminate() {
    for (policy, attached) in [
        (Some(WorkspacePolicy::Persistent), true),
        (Some(WorkspacePolicy::Ephemeral), true),
        (Some(WorkspacePolicy::Persistent), false),
        (None, false),
    ] {
        let p = present_workspace_actions(policy, attached, 1);
        assert!(!p.body.contains("Detach"), "body must not mention Detach: {}", p.body);
        assert!(!p.body.contains("Terminate"), "body must not mention Terminate: {}", p.body);
    }
}

#[test]
fn managed_remote_sets_endpoint_and_policy() {
    let uuids = vec!["t1".into()];
    let runtime = WorkspaceRuntime::managed_remote(
        "server.example.com",
        WorkspacePolicy::Persistent,
        &uuids,
    );
    assert!(runtime.is_managed());
    assert_eq!(runtime.endpoint, RuntimeEndpoint::Remote { host: "server.example.com".into() });
    assert_eq!(runtime.policy, WorkspacePolicy::Persistent);
    assert!(runtime.pending_layout_panes.contains("t1"));
}

#[test]
fn ensure_placeholder_bindings_adds_new_pane_to_remote_runtime() {
    let mut runtime =
        WorkspaceRuntime::managed_remote("host", WorkspacePolicy::Persistent, &["t1".into()]);

    runtime.ensure_placeholder_bindings(&["t1".into(), "t2".into()]);

    assert!(runtime.pane_bindings.contains_key("t2"));
    assert!(runtime.pending_layout_panes.contains("t2"));
    assert_eq!(runtime.endpoint, RuntimeEndpoint::Remote { host: "host".into() });
}

#[test]
fn ensure_placeholder_bindings_removes_closed_pane() {
    let mut runtime = WorkspaceRuntime::managed_remote(
        "host",
        WorkspacePolicy::Persistent,
        &["t1".into(), "t2".into()],
    );

    runtime.ensure_placeholder_bindings(&["t1".into()]);

    assert!(!runtime.pane_bindings.contains_key("t2"));
    assert!(!runtime.pending_layout_panes.contains("t2"));
    assert!(runtime.pane_bindings.contains_key("t1"));
}

// ── bind_runtime_pane / is_layout_pane_pending ──────────────

#[test]
fn bind_runtime_pane_clears_pending_and_sets_binding() {
    let mut runtime =
        WorkspaceRuntime::managed_local(WorkspacePolicy::Persistent, &["t1".into()]);
    assert!(runtime.is_layout_pane_pending("t1"));

    runtime.bind_runtime_pane("t1", "runtime-pane-abc");

    assert!(!runtime.is_layout_pane_pending("t1"));
    assert_eq!(runtime.pane_bindings.get("t1").unwrap(), "runtime-pane-abc");
}

#[test]
fn is_layout_pane_pending_false_for_unknown_uuid() {
    let runtime = WorkspaceRuntime::managed_local(WorkspacePolicy::Persistent, &["t1".into()]);
    assert!(!runtime.is_layout_pane_pending("unknown"));
}

// ── advance_connection_status ───────────────────────────────

#[test]
fn advance_connection_status_full_lifecycle() {
    let s = advance_connection_status(&ConnectionStatus::Connecting, ConnectionEvent::Started);
    assert_eq!(s, ConnectionStatus::Starting);

    let s = advance_connection_status(&s, ConnectionEvent::Connected);
    assert_eq!(s, ConnectionStatus::Connected);

    let s = advance_connection_status(&s, ConnectionEvent::Lost);
    assert_eq!(s, ConnectionStatus::Disconnected);

    let s = advance_connection_status(
        &s,
        ConnectionEvent::RetryScheduled { attempt: 1, retry_in_secs: 5 },
    );
    assert!(matches!(s, ConnectionStatus::Reconnecting { attempt: 1, .. }));

    let s = advance_connection_status(&s, ConnectionEvent::Recovered);
    assert_eq!(s, ConnectionStatus::Recovered);
}

#[test]
fn advance_connection_status_failed_produces_blocked() {
    let s = advance_connection_status(
        &ConnectionStatus::Connecting,
        ConnectionEvent::Failed(ConnectionProblem::PermissionDenied),
    );
    assert!(matches!(s, ConnectionStatus::Blocked(_)));
}

// ── ConnectionStatus::accepts_input ─────────────────────────

#[test]
fn connection_status_accepts_input_only_when_connected_or_recovered() {
    assert!(ConnectionStatus::Connected.accepts_input());
    assert!(ConnectionStatus::Recovered.accepts_input());
    assert!(!ConnectionStatus::Connecting.accepts_input());
    assert!(!ConnectionStatus::Disconnected.accepts_input());
    assert!(!ConnectionStatus::Starting.accepts_input());
}

// ── ConnectionProblem properties ────────────────────────────

#[test]
fn connection_problem_transient_vs_blocked() {
    assert!(ConnectionProblem::DaemonUnavailable.is_transient());
    assert!(!ConnectionProblem::VersionMismatch.is_transient());
    assert!(!ConnectionProblem::OwnershipConflict.is_transient());
    assert!(!ConnectionProblem::PermissionDenied.is_transient());
}

#[test]
fn connection_problem_labels_are_nonempty() {
    for problem in [
        ConnectionProblem::DaemonUnavailable,
        ConnectionProblem::VersionMismatch,
        ConnectionProblem::OwnershipConflict,
        ConnectionProblem::PermissionDenied,
        ConnectionProblem::Protocol("test".into()),
        ConnectionProblem::UserActionRequired("test".into()),
    ] {
        assert!(!problem.label().is_empty(), "label empty for {problem:?}");
    }
}

// ── RuntimeEndpoint::key ────────────────────────────────────

#[test]
fn endpoint_key_distinguishes_local_and_remote() {
    let local = RuntimeEndpoint::Local;
    let remote = RuntimeEndpoint::Remote { host: "host".into() };
    assert_ne!(local.key(), remote.key());
    assert_eq!(local.key(), "local");
    assert!(remote.key().contains("host"));
}

#[test]
fn host_key_local_returns_local_key() {
    assert_eq!(RuntimeEndpoint::Local.host_key(), rttx::host::LOCAL_KEY);
}

#[test]
fn host_key_remote_normalizes_ssh_target() {
    let endpoint = RuntimeEndpoint::Remote { host: "deploy@example.com".into() };
    assert_eq!(endpoint.host_key(), "example.com");
}

#[test]
fn host_key_remote_bare_hostname() {
    let endpoint = RuntimeEndpoint::Remote { host: "dev-box".into() };
    assert_eq!(endpoint.host_key(), "dev-box");
}

#[test]
fn remote_endpoint_host_key_matches_saved_host_key() {
    let endpoint = RuntimeEndpoint::Remote { host: "deploy@builder.example.com".into() };
    let host = rttx::host::Host::remote("deploy@builder.example.com");
    assert_eq!(endpoint.host_key(), host.key);
}

#[test]
fn connection_presentation_for_starting_shows_starting_label() {
    let p = present_connection_status(&ConnectionStatus::Starting);
    assert_eq!(p.header_label, "Starting");
    assert!(!p.input_enabled);
}

#[test]
fn menu_items_local_persistent_connected() {
    let items = workspace_menu_items(&WorkspaceMenuContext {
        is_remote: false,
        is_managed: true,
        is_persistent: true,
        is_attached: true,
        is_disconnected: false,
        is_connecting: false,
        is_daemon_died: false,
        has_other_disconnected_from_same_host: false,
    });
    assert!(!items.show_edit_connection);
    assert!(!items.show_reconnect);
    assert!(!items.show_reconnect_host);
    assert!(items.show_detach);
}

#[test]
fn menu_items_remote_persistent_disconnected() {
    let items = workspace_menu_items(&WorkspaceMenuContext {
        is_remote: true,
        is_managed: true,
        is_persistent: true,
        is_attached: true,
        is_disconnected: true,
        is_connecting: false,
        is_daemon_died: false,
        has_other_disconnected_from_same_host: false,
    });
    assert!(items.show_edit_connection);
    assert!(items.show_reconnect);
    assert!(!items.show_reconnect_host);
    assert!(items.show_detach);
}

#[test]
fn menu_items_local_ephemeral_connected() {
    let items = workspace_menu_items(&WorkspaceMenuContext {
        is_remote: false,
        is_managed: true,
        is_persistent: false,
        is_attached: true,
        is_disconnected: false,
        is_connecting: false,
        is_daemon_died: false,
        has_other_disconnected_from_same_host: false,
    });
    assert!(!items.show_edit_connection);
    assert!(!items.show_reconnect);
    assert!(!items.show_reconnect_host);
    assert!(!items.show_detach);
}

#[test]
fn menu_items_managed_disconnected_not_attached() {
    let items = workspace_menu_items(&WorkspaceMenuContext {
        is_remote: false,
        is_managed: true,
        is_persistent: true,
        is_attached: false,
        is_disconnected: true,
        is_connecting: false,
        is_daemon_died: false,
        has_other_disconnected_from_same_host: false,
    });
    assert!(items.show_reconnect);
    assert!(!items.show_reconnect_host);
    assert!(!items.show_detach);
}

#[test]
fn menu_items_unmanaged_workspace() {
    let items = workspace_menu_items(&WorkspaceMenuContext {
        is_remote: false,
        is_managed: false,
        is_persistent: false,
        is_attached: false,
        is_disconnected: false,
        is_connecting: false,
        is_daemon_died: false,
        has_other_disconnected_from_same_host: false,
    });
    assert!(!items.show_edit_connection);
    assert!(!items.show_reconnect);
    assert!(!items.show_reconnect_host);
    assert!(!items.show_detach);
}

#[test]
fn menu_items_reconnect_host_shown_when_multiple_disconnected() {
    let items = workspace_menu_items(&WorkspaceMenuContext {
        is_remote: true,
        is_managed: true,
        is_persistent: true,
        is_attached: false,
        is_disconnected: true,
        is_connecting: false,
        is_daemon_died: false,
        has_other_disconnected_from_same_host: true,
    });
    assert!(items.show_reconnect);
    assert!(items.show_reconnect_host);
}

#[test]
fn menu_items_reconnect_host_hidden_when_connected() {
    let items = workspace_menu_items(&WorkspaceMenuContext {
        is_remote: true,
        is_managed: true,
        is_persistent: true,
        is_attached: true,
        is_disconnected: false,
        is_connecting: false,
        is_daemon_died: false,
        has_other_disconnected_from_same_host: true,
    });
    assert!(!items.show_reconnect_host);
}

// ── SessionMissing state ────────────────────────────────────

#[test]
fn classify_session_not_found_as_session_missing() {
    let problem = classify_connection_problem(&DaemonError::ServerError {
        code: 4,
        message: "session not found".into(),
    });
    assert_eq!(problem, ConnectionProblem::SessionMissing);
    assert!(!problem.is_transient());
}

#[test]
fn session_missing_status_disables_input() {
    assert!(!ConnectionStatus::SessionMissing.accepts_input());
}

#[test]
fn session_missing_label_describes_state() {
    assert_eq!(ConnectionStatus::SessionMissing.short_label(), "Session Missing");
    assert!(ConnectionStatus::SessionMissing.label().contains("no longer exists"));
}

#[test]
fn advance_to_session_missing() {
    let status = advance_connection_status(
        &ConnectionStatus::Connecting,
        ConnectionEvent::SessionMissing,
    );
    assert_eq!(status, ConnectionStatus::SessionMissing);
}

#[test]
fn session_missing_icon_uses_warning_class() {
    let icon =
        connection_icon(&RuntimeEndpoint::Local, &ConnectionStatus::SessionMissing, true);
    assert_eq!(icon.css_class, "warning");
    assert!(icon.tooltip.contains("no longer exists"));
}

#[test]
fn session_missing_problem_label_is_nonempty() {
    assert!(!ConnectionProblem::SessionMissing.label().is_empty());
}

#[test]
fn menu_items_session_missing_hides_reconnect() {
    let items = workspace_menu_items(&WorkspaceMenuContext {
        is_remote: false,
        is_managed: true,
        is_persistent: true,
        is_attached: false,
        is_disconnected: false,
        is_connecting: false,
        is_daemon_died: false,
        has_other_disconnected_from_same_host: false,
    });
    assert!(!items.show_reconnect);
}

#[test]
fn connection_presentation_accepts_input_matches_status_accepts_input() {
    let statuses = [
        ConnectionStatus::Starting,
        ConnectionStatus::Connecting,
        ConnectionStatus::Connected,
        ConnectionStatus::Reconnecting { attempt: 1, retry_in_secs: 5 },
        ConnectionStatus::Blocked(ConnectionProblem::DaemonUnavailable),
        ConnectionStatus::Disconnected,
        ConnectionStatus::Recovered,
        ConnectionStatus::SessionMissing,
    ];
    for status in &statuses {
        let presentation = present_connection_status(status);
        assert_eq!(
            presentation.input_enabled,
            status.accepts_input(),
            "presentation.input_enabled should match status.accepts_input() for {status:?}"
        );
    }
}

// ── DaemonDied state (#954) ─────────────────────────────────

#[test]
fn daemon_died_is_not_transient() {
    assert!(!ConnectionProblem::DaemonDied.is_transient());
}

#[test]
fn daemon_died_label_says_daemon_stopped() {
    assert_eq!(ConnectionProblem::DaemonDied.label(), "Daemon stopped");
}

#[test]
fn daemon_died_short_label_says_daemon_stopped() {
    let status = ConnectionStatus::Blocked(ConnectionProblem::DaemonDied);
    assert_eq!(status.short_label(), "Daemon Stopped");
}

#[test]
fn daemon_died_full_label_says_daemon_stopped() {
    let status = ConnectionStatus::Blocked(ConnectionProblem::DaemonDied);
    assert_eq!(status.label(), "Daemon stopped");
}

#[test]
fn daemon_died_icon_uses_error_class_with_restart_tooltip() {
    let icon = connection_icon(
        &RuntimeEndpoint::Local,
        &ConnectionStatus::Blocked(ConnectionProblem::DaemonDied),
        true,
    );
    assert_eq!(icon.css_class, "error");
    assert!(
        icon.tooltip.contains("restart"),
        "tooltip should mention restart: {}",
        icon.tooltip
    );
}

#[test]
fn menu_items_daemon_died_shows_restart_daemon() {
    let items = workspace_menu_items(&WorkspaceMenuContext {
        is_remote: false,
        is_managed: true,
        is_persistent: true,
        is_attached: false,
        is_disconnected: true,
        is_connecting: false,
        is_daemon_died: true,
        has_other_disconnected_from_same_host: false,
    });
    assert!(items.show_restart_daemon);
    assert!(items.show_reconnect);
}

#[test]
fn menu_items_daemon_died_remote_hides_restart_daemon() {
    let items = workspace_menu_items(&WorkspaceMenuContext {
        is_remote: true,
        is_managed: true,
        is_persistent: true,
        is_attached: false,
        is_disconnected: true,
        is_connecting: false,
        is_daemon_died: true,
        has_other_disconnected_from_same_host: false,
    });
    assert!(!items.show_restart_daemon);
}

#[test]
fn daemon_died_disables_input() {
    let status = ConnectionStatus::Blocked(ConnectionProblem::DaemonDied);
    assert!(!status.accepts_input());
}

// ── Force reconnect during Connecting (#955) ────────────────

#[test]
fn menu_items_connecting_shows_force_reconnect() {
    let items = workspace_menu_items(&WorkspaceMenuContext {
        is_remote: true,
        is_managed: true,
        is_persistent: true,
        is_attached: false,
        is_disconnected: false,
        is_connecting: true,
        is_daemon_died: false,
        has_other_disconnected_from_same_host: false,
    });
    assert!(items.show_reconnect, "Force Reconnect should be available during Connecting");
}

#[test]
fn menu_items_connecting_local_shows_force_reconnect() {
    let items = workspace_menu_items(&WorkspaceMenuContext {
        is_remote: false,
        is_managed: true,
        is_persistent: true,
        is_attached: false,
        is_disconnected: false,
        is_connecting: true,
        is_daemon_died: false,
        has_other_disconnected_from_same_host: false,
    });
    assert!(items.show_reconnect, "Force Reconnect should be available for local connecting");
}

#[test]
fn menu_items_connected_hides_reconnect() {
    let items = workspace_menu_items(&WorkspaceMenuContext {
        is_remote: true,
        is_managed: true,
        is_persistent: true,
        is_attached: true,
        is_disconnected: false,
        is_connecting: false,
        is_daemon_died: false,
        has_other_disconnected_from_same_host: false,
    });
    assert!(!items.show_reconnect, "Reconnect should be hidden when connected");
}
