//! Decisions of an endpoint's connection actor.

use rttx::daemon::{DaemonError, ProtocolErrorKind};
use rttx::daemon_bridge::actor::{invalid_uuid, parse_uuid, reattach_failure, ActorState, AwaitStep, Effect, MessageKind, ReattachStep, Reply};
use rttx::daemon_bridge::{HeartbeatAction, InboundKind, ManagerOperation};
use rttx::runtime::{ConnectionProblem, ConnectionStatus, RuntimeEndpoint};

fn status(ws: &str, status: ConnectionStatus) -> Effect {
    Effect::Status { workspace_id: ws.into(), status }
}

fn tracked_actor() -> ActorState {
    let mut actor = ActorState::new(RuntimeEndpoint::Local, true, 10);
    actor.connected = true;
    let effects = actor.workspace_opened("ws-1".into(), "rt-1".into(), true, None);
    assert_eq!(
        effects,
        vec![Effect::WorkspaceOpened { workspace_id: "ws-1".into(), runtime_id: "rt-1".into() }, status("ws-1", ConnectionStatus::Connected)]
    );
    actor
}

#[test]
fn endpoint_actor_construction_does_not_require_tokio_runtime() {
    let actor = ActorState::new(RuntimeEndpoint::Local, true, 10);
    assert!(!actor.connected);
    assert!(actor.tracked_workspaces.is_empty());
}

#[test]
fn daemon_start_attempted_flag_defaults_to_false() {
    let actor = ActorState::new(RuntimeEndpoint::Local, true, 10);
    assert!(!actor.daemon_start_attempted, "new actor must not have daemon_start_attempted set");
}

#[test]
fn auto_start_daemon_flag_is_stored() {
    let actor = ActorState::new(RuntimeEndpoint::Local, false, 10);
    assert!(!actor.auto_start_daemon);
}

#[test]
fn daemon_is_started_once_per_outage() {
    let mut actor = ActorState::new(RuntimeEndpoint::Local, true, 10);
    assert!(!actor.should_start_daemon(true));
    assert!(actor.should_start_daemon(false));
    assert!(!actor.should_start_daemon(false));
    actor.connect_succeeded("ws-1");
    assert!(actor.should_start_daemon(false));
    let mut remote = ActorState::new(RuntimeEndpoint::Remote { host: "h".into() }, true, 10);
    assert!(!remote.should_start_daemon(false));
    let mut off = ActorState::new(RuntimeEndpoint::Local, false, 10);
    assert!(!off.should_start_daemon(false));
}

#[test]
fn begin_connect_reports_starting_or_connecting() {
    let local = ActorState::new(RuntimeEndpoint::Local, true, 10);
    assert_eq!(local.begin_connect("ws"), Some(status("ws", ConnectionStatus::Starting)));
    let remote = ActorState::new(RuntimeEndpoint::Remote { host: "h".into() }, true, 10);
    assert_eq!(remote.begin_connect("ws"), Some(status("ws", ConnectionStatus::Connecting)));
    let mut connected = ActorState::new(RuntimeEndpoint::Local, true, 10);
    connected.connect_succeeded("ws");
    assert_eq!(connected.begin_connect("ws"), None);
}

#[test]
fn transient_connect_failure_schedules_retry() {
    let mut actor = ActorState::new(RuntimeEndpoint::Local, true, 10);
    let (effects, problem) = actor.connect_failed("ws", &DaemonError::Io("refused".into()));
    assert_eq!(problem, ConnectionProblem::DaemonUnavailable);
    assert_eq!(
        effects,
        vec![
            status("ws", ConnectionStatus::Disconnected),
            status("ws", ConnectionStatus::Reconnecting { attempt: 1, retry_in_secs: 1 }),
            Effect::ScheduleReconnect { delay_secs: 1 },
        ]
    );
    assert_eq!(actor.backoff.reconnect_attempt, 1);
}

#[test]
fn permanent_connect_failure_blocks_and_reports() {
    let mut actor = ActorState::new(RuntimeEndpoint::Local, true, 10);
    let err = DaemonError::VersionMismatch { server: 2, client: 1 };
    let effects = actor.command_connect_failed("ws", ManagerOperation::OpenWorkspace, &err);
    assert_eq!(
        effects,
        vec![
            status("ws", ConnectionStatus::Blocked(ConnectionProblem::VersionMismatch)),
            Effect::Failed {
                workspace_id: "ws".into(),
                operation: ManagerOperation::OpenWorkspace,
                problem: ConnectionProblem::VersionMismatch,
                detail: "Version mismatch".into(),
            },
            status("ws", ConnectionStatus::Blocked(ConnectionProblem::VersionMismatch)),
        ]
    );
    assert_eq!(actor.backoff.reconnect_attempt, 0);
}

#[test]
fn close_pane_not_found_emits_pane_closed() {
    let mut actor = tracked_actor();
    let effects = actor.pane_closed_reply(
        "ws-1".into(),
        "layout-t1".into(),
        "rt-1".into(),
        "pane-1".into(),
        Ok(Reply::ServerError { code: 6, message: "pane not found".into() }),
    );
    assert_eq!(
        effects,
        vec![Effect::PaneClosed {
            workspace_id: "ws-1".into(),
            layout_terminal_uuid: "layout-t1".into(),
            runtime_id: "rt-1".into(),
            runtime_pane_id: "pane-1".into(),
        }]
    );
}

#[test]
fn close_pane_other_error_is_reported() {
    let mut actor = tracked_actor();
    let effects = actor.pane_closed_reply(
        "ws-1".into(),
        "l".into(),
        "rt-1".into(),
        "p".into(),
        Ok(Reply::ServerError { code: 7, message: "nope".into() }),
    );
    let problem = ConnectionProblem::UserActionRequired("nope".into());
    assert_eq!(
        effects,
        vec![
            Effect::Failed {
                workspace_id: "ws-1".into(),
                operation: ManagerOperation::ClosePane,
                problem: problem.clone(),
                detail: "server error (7): nope".into(),
            },
            status("ws-1", ConnectionStatus::Blocked(problem)),
        ]
    );
    assert!(actor.connected);
}

#[test]
fn pane_created_reply_reports_pane_and_connected() {
    let mut actor = tracked_actor();
    let effects = actor.pane_created_reply(
        "ws-1".into(),
        "layout-t1".into(),
        "rt-1".into(),
        Ok(Reply::PaneCreated { pane_id: Some("pane-9".into()) }),
    );
    assert_eq!(
        effects,
        vec![
            Effect::PaneCreated {
                workspace_id: "ws-1".into(),
                layout_terminal_uuid: "layout-t1".into(),
                runtime_id: "rt-1".into(),
                runtime_pane_id: "pane-9".into(),
            },
            status("ws-1", ConnectionStatus::Connected),
        ]
    );
    assert!(actor.pane_created_reply("ws-1".into(), "l".into(), "rt-1".into(), Ok(Reply::PaneCreated { pane_id: None })).is_empty());
}

#[test]
fn unexpected_reply_is_a_protocol_problem() {
    let mut actor = tracked_actor();
    let effects = actor.pane_created_reply("ws-1".into(), "l".into(), "rt-1".into(), Ok(Reply::Other));
    let problem = ConnectionProblem::Protocol("Unexpected daemon message".into());
    assert_eq!(effects[0], Effect::Failed {
        workspace_id: "ws-1".into(),
        operation: ManagerOperation::CreatePane,
        problem: problem.clone(),
        detail: "unexpected message from server".into(),
    });
    assert_eq!(effects.len(), 2);
}

#[test]
fn heartbeat_timeout_marks_workspace_disconnected() {
    let mut actor = tracked_actor();
    let mut lost = false;
    for _ in 0..4 {
        if actor.heartbeat.on_tick() == HeartbeatAction::DeclareLost {
            lost = true;
        }
    }
    assert!(lost);
    let effects = actor.handle_disconnect();
    assert_eq!(
        effects,
        vec![
            Effect::DropConnection,
            status("ws-1", ConnectionStatus::Disconnected),
            status("ws-1", ConnectionStatus::Reconnecting { attempt: 1, retry_in_secs: 1 }),
            Effect::ScheduleReconnect { delay_secs: 1 },
        ]
    );
    assert!(!actor.connected);
    assert_eq!(actor.heartbeat.pending_nonce, None);
}

#[test]
fn heartbeat_pong_keeps_workspace_connected() {
    let mut actor = tracked_actor();
    let HeartbeatAction::SendPing { nonce } = actor.heartbeat.on_tick() else { panic!("expected a ping") };
    assert!(!actor.inbound_message(&InboundKind::Pong { nonce }, None));
    assert_eq!(actor.heartbeat.pending_nonce, None);
    assert!(actor.connected);
}

#[test]
fn handle_disconnect_without_tracked_workspaces_only_drops() {
    let mut actor = ActorState::new(RuntimeEndpoint::Local, true, 10);
    actor.connected = true;
    assert_eq!(actor.handle_disconnect(), vec![Effect::DropConnection]);
    assert_eq!(actor.backoff.reconnect_attempt, 0);
}

#[test]
fn transient_command_failure_drops_connection() {
    let mut actor = tracked_actor();
    let effects = actor.handle_command_error("ws-1", ManagerOperation::SendInput, &DaemonError::Disconnected);
    assert_eq!(effects.len(), 2 + 4);
    assert_eq!(effects[2], Effect::DropConnection);
    assert_eq!(effects[5], Effect::ScheduleReconnect { delay_secs: 1 });
    assert!(!actor.connected);
}

#[test]
fn missing_session_only_marks_workspace() {
    let mut actor = tracked_actor();
    let err = DaemonError::ServerError { code: 4, message: "gone".into() };
    assert_eq!(actor.handle_command_error("ws-1", ManagerOperation::OpenWorkspace, &err), vec![status("ws-1", ConnectionStatus::SessionMissing)]);
    assert!(actor.connected);
}

#[test]
fn resolve_and_attach_reports_session_missing_on_stale_id() {
    let err = DaemonError::ProtocolError { kind: ProtocolErrorKind::RuntimeNotFound, message: "x".into(), retryable: false };
    assert_eq!(reattach_failure(&err), ReattachStep::MarkMissing);
}

#[test]
fn resolve_and_attach_reports_ownership_conflict() {
    assert_eq!(reattach_failure(&DaemonError::AttachBlocked), ReattachStep::Report);
    assert_eq!(reattach_failure(&DaemonError::Io("x".into())), ReattachStep::Report);
    assert_eq!(reattach_failure(&DaemonError::ServerError { code: 1, message: "m".into() }), ReattachStep::CreateNew);
    let mut actor = tracked_actor();
    let effects = actor.handle_command_error("ws-1", ManagerOperation::OpenWorkspace, &DaemonError::AttachBlocked);
    assert_eq!(effects[1], status("ws-1", ConnectionStatus::Blocked(ConnectionProblem::OwnershipConflict)));
}

#[test]
fn detach_and_terminate_untrack_workspace() {
    let mut actor = tracked_actor();
    let effects = actor.detach_reply("ws-1".into(), "rt-1".into(), Ok(Reply::SessionDetached));
    assert_eq!(effects, vec![Effect::WorkspaceDetached { workspace_id: "ws-1".into(), runtime_id: "rt-1".into() }]);
    assert!(actor.tracked_workspaces.is_empty());
    let mut actor = tracked_actor();
    let effects = actor.terminate_reply("ws-1".into(), "rt-1".into(), Ok(Reply::SessionTerminated { reason: 2 }));
    assert_eq!(effects, vec![Effect::RuntimeTerminated { workspace_id: "ws-1".into(), runtime_id: "rt-1".into(), reason: 2 }]);
    assert!(actor.tracked_workspaces.is_empty());
}

#[test]
fn inventory_errors_report_under_pseudo_workspace() {
    let mut actor = ActorState::new(RuntimeEndpoint::Remote { host: "box".into() }, true, 10);
    assert_eq!(actor.inventory_workspace_id(), "inventory:remote:box");
    assert_eq!(actor.inventory_reply(Ok(Reply::SessionList)), vec![Effect::InventoryLoaded]);
    let effects = actor.inventory_reply(Ok(Reply::Other));
    assert!(matches!(&effects[0], Effect::Failed { workspace_id, operation: ManagerOperation::RefreshInventory, .. } if workspace_id == "inventory:remote:box"));
}

#[test]
fn empty_runtime_gets_placeholder_pane() {
    let mut actor = ActorState::new(RuntimeEndpoint::Local, true, 10);
    let effects = actor.workspace_opened("ws".into(), "rt".into(), false, Some("t-1".into()));
    assert_eq!(
        effects[1],
        Effect::CreatePlaceholderPane { workspace_id: "ws".into(), runtime_id: "rt".into(), layout_terminal_uuid: "t-1".into() }
    );
    assert_eq!(actor.tracked_workspaces.get("ws").map(|s| s.as_str()), Some("rt"));
}

#[test]
fn reconnect_transient_failure_schedules_single_reconnect() {
    let mut actor = tracked_actor();
    actor.handle_disconnect();
    assert_eq!(actor.reconnect_target(), Some("ws-1".to_string()));
    let effects = actor.reconnect_failed("ws-1", &DaemonError::Io("refused".into()));
    let schedules = effects.iter().filter(|e| matches!(e, Effect::ScheduleReconnect { .. })).count();
    assert_eq!(schedules, 1);
    let effects = actor.reconnect_failed("ws-1", &DaemonError::VersionMismatch { server: 3, client: 1 });
    assert_eq!(effects.last(), Some(&Effect::ScheduleReconnect { delay_secs: 10 }));
}

#[test]
fn reconnect_preserves_backoff_on_transient_reattach_failure() {
    let mut actor = tracked_actor();
    actor.handle_disconnect();
    actor.handle_disconnect();
    let saved = actor.backoff.reconnect_attempt;
    assert_eq!(saved, 2);
    actor.connect_succeeded("ws-1");
    assert_eq!(actor.backoff.reconnect_attempt, 0);
    let (effects, stop) = actor.reattach_result("ws-1".into(), "rt-1".into(), Err(DaemonError::Disconnected));
    assert!(stop);
    assert_eq!(effects.len(), 2);
    let effects = actor.reconnect_aborted(saved);
    assert_eq!(effects.last(), Some(&Effect::ScheduleReconnect { delay_secs: 3 }));
    assert_eq!(actor.backoff.reconnect_attempt, 3);
}

#[test]
fn reattach_success_reports_recovered() {
    let actor = tracked_actor();
    let (effects, stop) = actor.reattach_result("ws-1".into(), "rt-1".into(), Ok(()));
    assert!(!stop);
    assert_eq!(
        effects,
        vec![Effect::WorkspaceOpened { workspace_id: "ws-1".into(), runtime_id: "rt-1".into() }, status("ws-1", ConnectionStatus::Recovered)]
    );
}

#[test]
fn ended_runtime_is_untracked_and_forwarded() {
    let mut actor = tracked_actor();
    actor.workspace_opened("ws-2".into(), "rt-2".into(), true, None);
    assert!(actor.inbound_message(&InboundKind::Other, Some("rt-1")));
    assert!(actor.tracked_workspaces.get("ws-1").is_none());
    assert!(actor.tracked_workspaces.get("ws-2").is_some());
    actor.forget_workspace("ws-2");
    assert!(actor.tracked_workspaces.is_empty());
}

#[test]
fn daemon_error_messages() {
    assert_eq!(DaemonError::Io("broken pipe".into()).message(), "io: broken pipe");
    assert_eq!(DaemonError::VersionMismatch { server: 3, client: 1 }.message(), "protocol version mismatch: server=3, client=1");
    assert_eq!(DaemonError::ServerError { code: 4, message: "gone".into() }.message(), "server error (4): gone");
    assert_eq!(DaemonError::AttachBlocked.message(), "runtime attach blocked");
    assert_eq!(DaemonError::Disconnected.message(), "connection closed");
}

#[test]
fn pushes_are_forwarded_while_awaiting_an_answer() {
    let mut actor = tracked_actor();
    assert_eq!(actor.awaiting_answer(&MessageKind::Output, false, None), AwaitStep::Forward);
    assert_eq!(actor.awaiting_answer(&MessageKind::Pong { nonce: 9 }, false, None), AwaitStep::Skip);
    assert_eq!(actor.awaiting_answer(&MessageKind::Answer, false, None), AwaitStep::Answer);
    assert_eq!(actor.awaiting_answer(&MessageKind::SessionTerminated, true, Some("rt-1")), AwaitStep::Answer);
    assert!(actor.tracked_workspaces.get("ws-1").is_some());
    assert_eq!(actor.awaiting_answer(&MessageKind::SessionTerminated, false, Some("rt-1")), AwaitStep::Forward);
    assert!(actor.tracked_workspaces.is_empty());
}

#[test]
fn heartbeat_runs_only_for_tracked_split_connections() {
    let actor = tracked_actor();
    assert!(actor.heartbeat_armed(true));
    assert!(!actor.heartbeat_armed(false));
    assert!(!ActorState::new(RuntimeEndpoint::Local, true, 10).heartbeat_armed(true));
}

#[test]
fn runtime_ids_must_be_uuids() {
    let bytes = parse_uuid("ws", ManagerOperation::CreatePane, "550e8400-e29b-41d4-a716-446655440000").unwrap();
    assert_eq!(bytes.len(), 16);
    assert_eq!(bytes[0], 0x55);
    assert_eq!(bytes[15], 0x00);
    let simple = parse_uuid("ws", ManagerOperation::CreatePane, "550e8400e29b41d4a716446655440000").unwrap();
    assert_eq!(simple, bytes);
    let err = parse_uuid("ws", ManagerOperation::ClosePane, "not-a-uuid").unwrap_err();
    match err {
        Effect::Failed { workspace_id, operation, problem, detail } => {
            assert_eq!(workspace_id, "ws");
            assert_eq!(operation, ManagerOperation::ClosePane);
            assert_eq!(problem, ConnectionProblem::Protocol("Invalid runtime UUID".into()));
            assert!(!detail.is_empty());
        }
        other => panic!("unexpected {other:?}"),
    }
    assert_eq!(
        invalid_uuid("w", ManagerOperation::SendInput, "bad".into()),
        Effect::Failed {
            workspace_id: "w".into(),
            operation: ManagerOperation::SendInput,
            problem: ConnectionProblem::Protocol("Invalid runtime UUID".into()),
            detail: "bad".into(),
        }
    );
}

#[test]
fn runtime_ids_in_every_uuid_form() {
    let hyphenated = parse_uuid("ws", ManagerOperation::CreatePane, "550e8400-e29b-41d4-a716-446655440000").unwrap();
    let forms = [
        "550E8400-E29B-41D4-A716-446655440000",
        "{550e8400-e29b-41d4-a716-446655440000}",
        "URN:uuid:550e8400-e29b-41d4-a716-446655440000",
        "550e8400e29b41d4a716446655440000",
    ];
    for form in forms {
        assert_eq!(parse_uuid("ws", ManagerOperation::CreatePane, form).unwrap(), hyphenated, "{form}");
    }
    for bad in ["550e8400-e29b-41d4-a716-44665544000g", "550e8400+e29b-41d4-a716-446655440000", "(550e8400-e29b-41d4-a716-446655440000)", ""] {
        assert!(parse_uuid("ws", ManagerOperation::CreatePane, bad).is_err(), "{bad}");
    }
}
