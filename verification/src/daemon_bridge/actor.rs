//! Decisions of an endpoint's connection actor.
//!
//! The actor owns one daemon connection and serves the commands of every
//! workspace on that endpoint. Its I/O (connecting, sending requests,
//! reading replies, timers) happens around these functions: each takes
//! the actor's state and what just happened, updates the state, and
//! returns the effects to carry out, in order.

use vstd::prelude::*;

use super::{next_delay, observe_spec, sat_inc_u32, HeartbeatMonitor, InboundKind, ManagerOperation, ReconnectBackoff};
use crate::daemon::{error_text, DaemonError};
use crate::ids::{parse_uuid_text, uuid_from_text};
use crate::runtime::{
    classify_connection_problem, classify_view, endpoint_key, problem_view_label, ConnectionProblem,
    ConnectionStatus, EndpointView, ProblemView, RuntimeEndpoint, StatusView,
};
use crate::text::{owned, str_eq, strs_view};
use crate::str_map::StrMap;

verus! {

/// Something the actor does, reported to the window or to itself.
#[derive(Debug, PartialEq, Eq)]
pub enum Effect {
    /// A workspace's connection status changed.
    Status { workspace_id: String, status: ConnectionStatus },
    /// An operation of a workspace failed.
    Failed { workspace_id: String, operation: ManagerOperation, problem: ConnectionProblem, detail: String },
    /// Close the connection and its reader, writer and ssh process.
    DropConnection,
    /// Send the actor a reconnect command after this many seconds.
    ScheduleReconnect { delay_secs: u32 },
    /// A workspace is attached to a runtime (with the runtime's snapshot).
    WorkspaceOpened { workspace_id: String, runtime_id: String },
    /// Ask the actor to create the first pane of an empty runtime for a
    /// placeholder terminal of the layout.
    CreatePlaceholderPane { workspace_id: String, runtime_id: String, layout_terminal_uuid: String },
    /// A pane was created for a layout terminal.
    PaneCreated { workspace_id: String, layout_terminal_uuid: String, runtime_id: String, runtime_pane_id: String },
    /// A pane was closed.
    PaneClosed { workspace_id: String, layout_terminal_uuid: String, runtime_id: String, runtime_pane_id: String },
    /// A workspace was detached from its runtime.
    WorkspaceDetached { workspace_id: String, runtime_id: String },
    /// A workspace's runtime ended, for the daemon's reason code.
    RuntimeTerminated { workspace_id: String, runtime_id: String, reason: i32 },
    /// The endpoint's runtime inventory arrived.
    InventoryLoaded,
}

/// Mathematical model of an [`Effect`].
pub enum EffectView {
    Status { workspace_id: Seq<char>, status: StatusView },
    Failed { workspace_id: Seq<char>, operation: ManagerOperation, problem: ProblemView, detail: Seq<char> },
    DropConnection,
    ScheduleReconnect { delay_secs: u32 },
    WorkspaceOpened { workspace_id: Seq<char>, runtime_id: Seq<char> },
    CreatePlaceholderPane { workspace_id: Seq<char>, runtime_id: Seq<char>, layout_terminal_uuid: Seq<char> },
    PaneCreated {
        workspace_id: Seq<char>,
        layout_terminal_uuid: Seq<char>,
        runtime_id: Seq<char>,
        runtime_pane_id: Seq<char>,
    },
    PaneClosed {
        workspace_id: Seq<char>,
        layout_terminal_uuid: Seq<char>,
        runtime_id: Seq<char>,
        runtime_pane_id: Seq<char>,
    },
    WorkspaceDetached { workspace_id: Seq<char>, runtime_id: Seq<char> },
    RuntimeTerminated { workspace_id: Seq<char>, runtime_id: Seq<char>, reason: i32 },
    InventoryLoaded,
}

impl View for Effect {
    type V = EffectView;

    open spec fn view(&self) -> EffectView {
        match self {
            Effect::Status { workspace_id, status } => EffectView::Status {
                workspace_id: workspace_id@,
                status: status@,
            },
            Effect::Failed { workspace_id, operation, problem, detail } => EffectView::Failed {
                workspace_id: workspace_id@,
                operation: *operation,
                problem: problem@,
                detail: detail@,
            },
            Effect::DropConnection => EffectView::DropConnection,
            Effect::ScheduleReconnect { delay_secs } => EffectView::ScheduleReconnect { delay_secs: *delay_secs },
            Effect::WorkspaceOpened { workspace_id, runtime_id } => EffectView::WorkspaceOpened {
                workspace_id: workspace_id@,
                runtime_id: runtime_id@,
            },
            Effect::CreatePlaceholderPane { workspace_id, runtime_id, layout_terminal_uuid } =>
                EffectView::CreatePlaceholderPane {
                workspace_id: workspace_id@,
                runtime_id: runtime_id@,
                layout_terminal_uuid: layout_terminal_uuid@,
            },
            Effect::PaneCreated { workspace_id, layout_terminal_uuid, runtime_id, runtime_pane_id } =>
                EffectView::PaneCreated {
                workspace_id: workspace_id@,
                layout_terminal_uuid: layout_terminal_uuid@,
                runtime_id: runtime_id@,
                runtime_pane_id: runtime_pane_id@,
            },
            Effect::PaneClosed { workspace_id, layout_terminal_uuid, runtime_id, runtime_pane_id } =>
                EffectView::PaneClosed {
                workspace_id: workspace_id@,
                layout_terminal_uuid: layout_terminal_uuid@,
                runtime_id: runtime_id@,
                runtime_pane_id: runtime_pane_id@,
            },
            Effect::WorkspaceDetached { workspace_id, runtime_id } => EffectView::WorkspaceDetached {
                workspace_id: workspace_id@,
                runtime_id: runtime_id@,
            },
            Effect::RuntimeTerminated { workspace_id, runtime_id, reason } => EffectView::RuntimeTerminated {
                workspace_id: workspace_id@,
                runtime_id: runtime_id@,
                reason: *reason,
            },
            Effect::InventoryLoaded => EffectView::InventoryLoaded,
        }
    }
}

/// Models of a list of effects.
pub open spec fn effects_view(v: Seq<Effect>) -> Seq<EffectView> {
    v.map_values(|e: Effect| e@)
}

/// A status effect.
pub open spec fn status_view(ws: Seq<char>, status: StatusView) -> EffectView {
    EffectView::Status { workspace_id: ws, status }
}

/// Reporting a failed operation: the failure, then the workspace blocked
/// on its problem.
pub open spec fn error_views(ws: Seq<char>, op: ManagerOperation, problem: ProblemView, detail: Seq<char>) -> Seq<
    EffectView,
> {
    seq![
        EffectView::Failed { workspace_id: ws, operation: op, problem, detail },
        status_view(ws, StatusView::Blocked(problem)),
    ]
}

/// For each workspace in turn: disconnected, then reconnecting with the
/// given attempt and delay.
pub open spec fn reconnect_statuses(keys: Seq<Seq<char>>, attempt: u32, delay: u32) -> Seq<EffectView>
    decreases keys.len(),
{
    if keys.len() == 0 {
        Seq::empty()
    } else {
        reconnect_statuses(keys.drop_last(), attempt, delay) + seq![
            status_view(keys.last(), StatusView::Disconnected),
            status_view(keys.last(), StatusView::Reconnecting { attempt, retry_in_secs: delay }),
        ]
    }
}

/// The state an endpoint actor decides on.
#[derive(Debug)]
pub struct ActorState {
    /// The endpoint served.
    pub endpoint: RuntimeEndpoint,
    /// Whether a connection (split or not) is open.
    pub connected: bool,
    /// Workspaces attached through this actor, by id, with their runtime ids.
    pub tracked_workspaces: StrMap<String>,
    /// Reconnect attempts and the longest delay.
    pub backoff: ReconnectBackoff,
    /// Heartbeat of the open connection.
    pub heartbeat: HeartbeatMonitor,
    /// Whether starting the local daemon was already tried since the last
    /// successful connection (it is started at most once per outage).
    pub daemon_start_attempted: bool,
    /// Whether a missing local daemon may be started.
    pub auto_start_daemon: bool,
}

/// The effects of losing the connection: close it; with workspaces to
/// restore, report each disconnected then reconnecting, and schedule a
/// reconnect.
pub open spec fn disconnect_views(s: ActorState) -> Seq<EffectView> {
    if s.tracked_workspaces.keys().len() == 0 {
        seq![EffectView::DropConnection]
    } else {
        seq![EffectView::DropConnection] + reconnect_statuses(
            s.tracked_workspaces.keys(),
            sat_inc_u32(s.backoff.reconnect_attempt),
            next_delay(s.backoff),
        ) + seq![EffectView::ScheduleReconnect { delay_secs: next_delay(s.backoff) }]
    }
}

/// The state after losing the connection: closed, heartbeat cleared, and
/// one more attempt counted when a reconnect was scheduled.
pub open spec fn disconnected(s: ActorState) -> ActorState {
    ActorState {
        connected: false,
        heartbeat: HeartbeatMonitor { pending_nonce: None, missed_ticks: 0, ..s.heartbeat },
        backoff: if s.tracked_workspaces.keys().len() == 0 {
            s.backoff
        } else {
            ReconnectBackoff { reconnect_attempt: sat_inc_u32(s.backoff.reconnect_attempt), ..s.backoff }
        },
        ..s
    }
}

/// The effects of a failed command: a missing runtime only marks the
/// workspace; any other problem is reported, and a transient one also
/// drops the connection.
pub open spec fn command_error_views(s: ActorState, ws: Seq<char>, op: ManagerOperation, e: DaemonError) -> Seq<
    EffectView,
> {
    let p = classify_view(e);
    if p is SessionMissing {
        seq![status_view(ws, StatusView::SessionMissing)]
    } else if p is DaemonUnavailable {
        error_views(ws, op, p, error_text(e)) + disconnect_views(s)
    } else {
        error_views(ws, op, p, error_text(e))
    }
}

/// The state after a failed command.
pub open spec fn command_error_state(s: ActorState, e: DaemonError) -> ActorState {
    if classify_view(e) is DaemonUnavailable {
        disconnected(s)
    } else {
        s
    }
}

/// Report a failed operation: the failure, then the workspace blocked on
/// its problem.
pub fn emit_error(workspace_id: &str, operation: ManagerOperation, problem: ConnectionProblem, detail: String) -> (r: Vec<
    Effect,
>)
    ensures
        effects_view(r@) == error_views(workspace_id@, operation, problem@, detail@),
{
    let blocked = ConnectionStatus::Blocked(problem.clone());
    let mut r: Vec<Effect> = Vec::new();
    r.push(Effect::Failed { workspace_id: workspace_id.to_string(), operation, problem, detail });
    r.push(Effect::Status { workspace_id: workspace_id.to_string(), status: blocked });
    assert(effects_view(r@) =~= error_views(workspace_id@, operation, problem@, detail@));
    r
}

impl ActorState {
    /// A fresh actor for an endpoint: not connected, nothing tracked.
    pub fn new(endpoint: RuntimeEndpoint, auto_start_daemon: bool, reconnect_delay_secs: u32) -> (s: Self)
        ensures
            s.endpoint == endpoint,
            !s.connected,
            s.tracked_workspaces@ == Map::<Seq<char>, String>::empty(),
            s.backoff == (ReconnectBackoff { reconnect_attempt: 0, reconnect_delay_secs }),
            s.heartbeat == (HeartbeatMonitor { pending_nonce: None, next_nonce: 0, missed_ticks: 0 }),
            !s.daemon_start_attempted,
            s.auto_start_daemon == auto_start_daemon,
    {
        ActorState {
            endpoint,
            connected: false,
            tracked_workspaces: StrMap::new(),
            backoff: ReconnectBackoff::new(reconnect_delay_secs),
            heartbeat: HeartbeatMonitor { pending_nonce: None, next_nonce: 0, missed_ticks: 0 },
            daemon_start_attempted: false,
            auto_start_daemon,
        }
    }

    /// The connection was lost (read error, end of stream, heartbeat
    /// timeout or a transient command failure).
    pub fn handle_disconnect(&mut self) -> (r: Vec<Effect>)
        ensures
            effects_view(r@) == disconnect_views(*old(self)),
            *final(self) == disconnected(*old(self)),
    {
        self.connected = false;
        self.heartbeat.reset();
        let mut r: Vec<Effect> = Vec::new();
        r.push(Effect::DropConnection);
        let n = self.tracked_workspaces.len();
        if n == 0 {
            assert(effects_view(r@) =~= seq![EffectView::DropConnection]);
            return r;
        }
        let attempt = self.backoff.next_reconnect_attempt();
        let delay = self.backoff.next_reconnect_delay_secs();
        let ghost keys = self.tracked_workspaces.keys();
        let mut i: usize = 0;
        assert(keys.take(0) =~= Seq::<Seq<char>>::empty());
        while i < n
            invariant
                i <= n,
                n == keys.len(),
                keys == self.tracked_workspaces.keys(),
                effects_view(r@) == seq![EffectView::DropConnection] + reconnect_statuses(
                    keys.take(i as int),
                    attempt,
                    delay,
                ),
            decreases n - i,
        {
            let ws = self.tracked_workspaces.key_at(i);
            let ghost before = r@;
            r.push(Effect::Status { workspace_id: ws.clone(), status: ConnectionStatus::Disconnected });
            r.push(
                Effect::Status {
                    workspace_id: ws.clone(),
                    status: ConnectionStatus::Reconnecting { attempt, retry_in_secs: delay },
                },
            );
            proof {
                let t1 = keys.take(i + 1);
                assert(t1.drop_last() =~= keys.take(i as int));
                assert(t1.last() == ws@);
                assert(effects_view(r@) =~= effects_view(before) + seq![
                    status_view(ws@, StatusView::Disconnected),
                    status_view(ws@, StatusView::Reconnecting { attempt, retry_in_secs: delay }),
                ]);
                assert(effects_view(r@) =~= seq![EffectView::DropConnection] + reconnect_statuses(t1, attempt, delay));
            }
            i = i + 1;
        }
        assert(keys.take(n as int) =~= keys);
        self.backoff.schedule_reconnect();
        r.push(Effect::ScheduleReconnect { delay_secs: delay });
        assert(effects_view(r@) =~= disconnect_views(*old(self)));
        r
    }

    /// A command of a workspace failed with `error`.
    pub fn handle_command_error(&mut self, workspace_id: &str, operation: ManagerOperation, error: &DaemonError) -> (r: Vec<
        Effect,
    >)
        ensures
            effects_view(r@) == command_error_views(*old(self), workspace_id@, operation, *error),
            *final(self) == command_error_state(*old(self), *error),
    {
        let problem = classify_connection_problem(error);
        if matches!(problem, ConnectionProblem::SessionMissing) {
            let mut r: Vec<Effect> = Vec::new();
            r.push(Effect::Status { workspace_id: workspace_id.to_string(), status: ConnectionStatus::SessionMissing });
            assert(effects_view(r@) =~= seq![status_view(workspace_id@, StatusView::SessionMissing)]);
            return r;
        }
        let transient = problem.is_transient();
        let mut r = emit_error(workspace_id, operation, problem, error.message());
        if transient {
            let mut more = self.handle_disconnect();
            let ghost before = r@;
            r.append(&mut more);
            assert(effects_view(r@) =~= effects_view(before) + disconnect_views(*old(self)));
        }
        r
    }
}

/// What the daemon answered to a request, as the actor reads it.
#[derive(Debug, PartialEq, Eq)]
pub enum Reply {
    /// A pane was created; `None` when its id is not a valid UUID.
    PaneCreated { pane_id: Option<String> },
    PaneClosed,
    SessionDetached,
    SessionTerminated { reason: i32 },
    SessionList,
    /// A coded server error.
    ServerError { code: u32, message: String },
    /// Any other message.
    Other,
}

/// The error a reply amounts to when it is not the expected answer.
pub open spec fn reply_error(reply: Result<Reply, DaemonError>) -> DaemonError {
    match reply {
        Ok(Reply::ServerError { code, message }) => DaemonError::ServerError { code, message },
        Ok(_) => DaemonError::UnexpectedMessage,
        Err(e) => e,
    }
}

/// The error a reply amounts to when it is not the expected answer.
fn into_error(reply: Result<Reply, DaemonError>) -> (e: DaemonError)
    ensures
        e == reply_error(reply),
{
    match reply {
        Ok(Reply::ServerError { code, message }) => DaemonError::ServerError { code, message },
        Ok(_) => DaemonError::UnexpectedMessage,
        Err(e) => e,
    }
}

/// The daemon error code for a pane that no longer exists.
pub const ERR_PANE_NOT_FOUND: u32 = 6;

/// Whether a reply to closing a pane means the pane is gone: closed now,
/// or already unknown to the daemon.
pub open spec fn closes_pane(reply: Result<Reply, DaemonError>) -> bool {
    match reply {
        Ok(Reply::PaneClosed) => true,
        Ok(Reply::ServerError { code, .. }) => code == ERR_PANE_NOT_FOUND,
        _ => false,
    }
}

/// The status a connection attempt reports first: the local daemon may
/// have to be started, a remote one is only connected to.
pub open spec fn connecting_status(e: EndpointView) -> StatusView {
    match e {
        EndpointView::Local => StatusView::Starting,
        EndpointView::Remote { .. } => StatusView::Connecting,
    }
}

/// The two states agree on everything but the tracked workspaces.
pub open spec fn same_but_tracked(a: ActorState, b: ActorState) -> bool {
    &&& a.endpoint == b.endpoint
    &&& a.connected == b.connected
    &&& a.backoff == b.backoff
    &&& a.heartbeat == b.heartbeat
    &&& a.daemon_start_attempted == b.daemon_start_attempted
    &&& a.auto_start_daemon == b.auto_start_daemon
}

/// The effects of a failed connection attempt: a transient problem
/// reports the workspace disconnected, then reconnecting, and schedules a
/// retry; any other blocks it.
pub open spec fn connect_failure_views(s: ActorState, ws: Seq<char>, p: ProblemView) -> Seq<EffectView> {
    if p is DaemonUnavailable {
        seq![
            status_view(ws, StatusView::Disconnected),
            status_view(
                ws,
                StatusView::Reconnecting {
                    attempt: sat_inc_u32(s.backoff.reconnect_attempt),
                    retry_in_secs: next_delay(s.backoff),
                },
            ),
            EffectView::ScheduleReconnect { delay_secs: next_delay(s.backoff) },
        ]
    } else {
        seq![status_view(ws, StatusView::Blocked(p))]
    }
}

/// The state after a failed connection attempt.
pub open spec fn connect_failure_state(s: ActorState, p: ProblemView) -> ActorState {
    if p is DaemonUnavailable {
        ActorState {
            backoff: ReconnectBackoff { reconnect_attempt: sat_inc_u32(s.backoff.reconnect_attempt), ..s.backoff },
            ..s
        }
    } else {
        s
    }
}

/// What to do after reattaching a known runtime failed while opening a
/// workspace.
#[derive(Debug, Clone, Copy, PartialEq, Eq, Structural)]
pub enum ReattachStep {
    /// Report the failure (ownership conflict or transport failure).
    Report,
    /// The runtime is gone: mark the workspace, create nothing.
    MarkMissing,
    /// Create a fresh runtime instead.
    CreateNew,
}

/// The step after a failed reattach.
pub open spec fn reattach_step(e: DaemonError) -> ReattachStep {
    if e is AttachBlocked || e is Io || e is Disconnected {
        ReattachStep::Report
    } else if classify_view(e) is SessionMissing {
        ReattachStep::MarkMissing
    } else {
        ReattachStep::CreateNew
    }
}

/// Decide what follows a failed reattach of a known runtime.
pub fn reattach_failure(error: &DaemonError) -> (r: ReattachStep)
    ensures
        r == reattach_step(*error),
{
    match error {
        DaemonError::AttachBlocked | DaemonError::Io(_) | DaemonError::Disconnected => ReattachStep::Report,
        _ => {
            let p = classify_connection_problem(error);
            if matches!(p, ConnectionProblem::SessionMissing) {
                ReattachStep::MarkMissing
            } else {
                ReattachStep::CreateNew
            }
        },
    }
}

impl ActorState {
    /// A command needs the connection: the status to report while
    /// connecting, or `None` when the connection is already open.
    pub fn begin_connect(&self, workspace_id: &str) -> (r: Option<Effect>)
        ensures
            self.connected ==> r is None,
            !self.connected ==> (r matches Some(e) && e@ == status_view(workspace_id@, connecting_status(self.endpoint@))),
    {
        if self.connected {
            return None;
        }
        let status = match &self.endpoint {
            RuntimeEndpoint::Local => ConnectionStatus::Starting,
            RuntimeEndpoint::Remote { .. } => ConnectionStatus::Connecting,
        };
        Some(Effect::Status { workspace_id: workspace_id.to_string(), status })
    }

    /// Whether to start the local daemon before connecting: only for the
    /// local endpoint, when its socket is missing, starting is allowed and
    /// was not tried since the last connection. Starting is then noted.
    pub fn should_start_daemon(&mut self, socket_exists: bool) -> (b: bool)
        ensures
            b == (old(self).endpoint is Local && !socket_exists && !old(self).daemon_start_attempted
                && old(self).auto_start_daemon),
            *final(self) == (ActorState { daemon_start_attempted: old(self).daemon_start_attempted || b, ..*old(self) }),
    {
        let b = matches!(self.endpoint, RuntimeEndpoint::Local) && !socket_exists && !self.daemon_start_attempted
            && self.auto_start_daemon;
        if b {
            self.daemon_start_attempted = true;
        }
        b
    }

    /// The connection is open: attempts start again from zero, a later
    /// outage may start the local daemon again, and the workspace is
    /// connected.
    pub fn connect_succeeded(&mut self, workspace_id: &str) -> (r: Vec<Effect>)
        ensures
            effects_view(r@) == seq![status_view(workspace_id@, StatusView::Connected)],
            *final(self) == (ActorState {
                connected: true,
                backoff: ReconnectBackoff { reconnect_attempt: 0, ..old(self).backoff },
                daemon_start_attempted: if old(self).endpoint is Local {
                    false
                } else {
                    old(self).daemon_start_attempted
                },
                ..*old(self)
            }),
    {
        self.connected = true;
        self.backoff.connected();
        if matches!(self.endpoint, RuntimeEndpoint::Local) {
            self.daemon_start_attempted = false;
        }
        let mut r: Vec<Effect> = Vec::new();
        r.push(Effect::Status { workspace_id: workspace_id.to_string(), status: ConnectionStatus::Connected });
        assert(effects_view(r@) =~= seq![status_view(workspace_id@, StatusView::Connected)]);
        r
    }

    /// Connecting failed with `error`; also returns the problem it is
    /// classified as.
    pub fn connect_failed(&mut self, workspace_id: &str, error: &DaemonError) -> (r: (Vec<Effect>, ConnectionProblem))
        ensures
            r.1@ == classify_view(*error),
            effects_view(r.0@) == connect_failure_views(*old(self), workspace_id@, classify_view(*error)),
            *final(self) == connect_failure_state(*old(self), classify_view(*error)),
    {
        let problem = classify_connection_problem(error);
        let mut r: Vec<Effect> = Vec::new();
        if problem.is_transient() {
            let attempt = self.backoff.next_reconnect_attempt();
            let delay = self.backoff.next_reconnect_delay_secs();
            r.push(Effect::Status { workspace_id: workspace_id.to_string(), status: ConnectionStatus::Disconnected });
            r.push(
                Effect::Status {
                    workspace_id: workspace_id.to_string(),
                    status: ConnectionStatus::Reconnecting { attempt, retry_in_secs: delay },
                },
            );
            self.backoff.schedule_reconnect();
            r.push(Effect::ScheduleReconnect { delay_secs: delay });
            assert(effects_view(r@) =~= connect_failure_views(*old(self), workspace_id@, classify_view(*error)));
        } else {
            r.push(Effect::Status { workspace_id: workspace_id.to_string(), status: ConnectionStatus::Blocked(problem.clone()) });
            assert(effects_view(r@) =~= connect_failure_views(*old(self), workspace_id@, classify_view(*error)));
        }
        (r, problem)
    }

    /// A command could not get a connection: the attempt's effects, then
    /// the operation reported failed with the problem's label.
    pub fn command_connect_failed(&mut self, workspace_id: &str, operation: ManagerOperation, error: &DaemonError) -> (r: Vec<
        Effect,
    >)
        ensures
            effects_view(r@) == connect_failure_views(*old(self), workspace_id@, classify_view(*error)) + error_views(
                workspace_id@,
                operation,
                classify_view(*error),
                problem_view_label(classify_view(*error)),
            ),
            *final(self) == connect_failure_state(*old(self), classify_view(*error)),
    {
        let (mut r, problem) = self.connect_failed(workspace_id, error);
        let label = problem.label();
        let mut more = emit_error(workspace_id, operation, problem, label);
        let ghost before = r@;
        let ghost m = more@;
        r.append(&mut more);
        assert(effects_view(r@) =~= effects_view(before) + effects_view(m));
        r
    }
}

/// Views of one effect.
pub open spec fn one(e: EffectView) -> Seq<EffectView> {
    seq![e]
}

impl ActorState {
    /// The reply to a pane creation for the layout terminal
    /// `layout_terminal_uuid` of a workspace.
    pub fn pane_created_reply(
        &mut self,
        workspace_id: String,
        layout_terminal_uuid: String,
        runtime_id: String,
        reply: Result<Reply, DaemonError>,
    ) -> (r: Vec<Effect>)
        ensures
            match reply {
                Ok(Reply::PaneCreated { pane_id: Some(id) }) => effects_view(r@) == seq![
                    EffectView::PaneCreated {
                        workspace_id: workspace_id@,
                        layout_terminal_uuid: layout_terminal_uuid@,
                        runtime_id: runtime_id@,
                        runtime_pane_id: id@,
                    },
                    status_view(workspace_id@, StatusView::Connected),
                ] && *final(self) == *old(self),
                Ok(Reply::PaneCreated { pane_id: None }) => r@.len() == 0 && *final(self) == *old(self),
                _ => effects_view(r@) == command_error_views(
                    *old(self),
                    workspace_id@,
                    ManagerOperation::CreatePane,
                    reply_error(reply),
                ) && *final(self) == command_error_state(*old(self), reply_error(reply)),
            },
    {
        match reply {
            Ok(Reply::PaneCreated { pane_id: Some(id) }) => {
                let mut r: Vec<Effect> = Vec::new();
                let ghost (w, l, rt, p) = (workspace_id@, layout_terminal_uuid@, runtime_id@, id@);
                let ws2 = workspace_id.clone();
                r.push(Effect::PaneCreated { workspace_id, layout_terminal_uuid, runtime_id, runtime_pane_id: id });
                r.push(Effect::Status { workspace_id: ws2, status: ConnectionStatus::Connected });
                assert(effects_view(r@) =~= seq![
                    EffectView::PaneCreated { workspace_id: w, layout_terminal_uuid: l, runtime_id: rt, runtime_pane_id: p },
                    status_view(w, StatusView::Connected),
                ]);
                r
            },
            Ok(Reply::PaneCreated { pane_id: None }) => Vec::new(),
            other => {
                let e = into_error(other);
                self.handle_command_error(workspace_id.as_str(), ManagerOperation::CreatePane, &e)
            },
        }
    }

    /// The reply to closing a pane. A pane the daemon no longer has counts
    /// as closed.
    pub fn pane_closed_reply(
        &mut self,
        workspace_id: String,
        layout_terminal_uuid: String,
        runtime_id: String,
        runtime_pane_id: String,
        reply: Result<Reply, DaemonError>,
    ) -> (r: Vec<Effect>)
        ensures
            closes_pane(reply) ==> effects_view(r@) == one(
                EffectView::PaneClosed {
                    workspace_id: workspace_id@,
                    layout_terminal_uuid: layout_terminal_uuid@,
                    runtime_id: runtime_id@,
                    runtime_pane_id: runtime_pane_id@,
                },
            ) && *final(self) == *old(self),
            !closes_pane(reply) ==> effects_view(r@) == command_error_views(
                *old(self),
                workspace_id@,
                ManagerOperation::ClosePane,
                reply_error(reply),
            ) && *final(self) == command_error_state(*old(self), reply_error(reply)),
    {
        let closed = match &reply {
            Ok(Reply::PaneClosed) => true,
            Ok(Reply::ServerError { code, .. }) => *code == ERR_PANE_NOT_FOUND,
            _ => false,
        };
        if closed {
            let mut r: Vec<Effect> = Vec::new();
            let ghost (w, l, rt, p) = (workspace_id@, layout_terminal_uuid@, runtime_id@, runtime_pane_id@);
            r.push(Effect::PaneClosed { workspace_id, layout_terminal_uuid, runtime_id, runtime_pane_id });
            assert(effects_view(r@) =~= one(
                EffectView::PaneClosed { workspace_id: w, layout_terminal_uuid: l, runtime_id: rt, runtime_pane_id: p },
            ));
            r
        } else {
            let e = into_error(reply);
            self.handle_command_error(workspace_id.as_str(), ManagerOperation::ClosePane, &e)
        }
    }

    /// The reply to detaching a workspace from its runtime: detached, or
    /// the runtime ended meanwhile; either way the workspace is no longer
    /// tracked.
    pub fn detach_reply(&mut self, workspace_id: String, runtime_id: String, reply: Result<Reply, DaemonError>) -> (r: Vec<
        Effect,
    >)
        ensures
            match reply {
                Ok(Reply::SessionDetached) => effects_view(r@) == one(
                    EffectView::WorkspaceDetached { workspace_id: workspace_id@, runtime_id: runtime_id@ },
                ) && final(self).tracked_workspaces@ == old(self).tracked_workspaces@.remove(workspace_id@)
                    && same_but_tracked(*final(self), *old(self)),
                Ok(Reply::SessionTerminated { reason }) => effects_view(r@) == one(
                    EffectView::RuntimeTerminated { workspace_id: workspace_id@, runtime_id: runtime_id@, reason },
                ) && final(self).tracked_workspaces@ == old(self).tracked_workspaces@.remove(workspace_id@)
                    && same_but_tracked(*final(self), *old(self)),
                _ => effects_view(r@) == command_error_views(
                    *old(self),
                    workspace_id@,
                    ManagerOperation::DetachRuntime,
                    reply_error(reply),
                ) && *final(self) == command_error_state(*old(self), reply_error(reply)),
            },
    {
        match reply {
            Ok(Reply::SessionDetached) => {
                self.tracked_workspaces.remove(workspace_id.as_str());
                let mut r: Vec<Effect> = Vec::new();
                let ghost (w, rt) = (workspace_id@, runtime_id@);
                r.push(Effect::WorkspaceDetached { workspace_id, runtime_id });
                assert(effects_view(r@) =~= one(EffectView::WorkspaceDetached { workspace_id: w, runtime_id: rt }));
                r
            },
            Ok(Reply::SessionTerminated { reason }) => {
                self.tracked_workspaces.remove(workspace_id.as_str());
                let mut r: Vec<Effect> = Vec::new();
                let ghost (w, rt) = (workspace_id@, runtime_id@);
                r.push(Effect::RuntimeTerminated { workspace_id, runtime_id, reason });
                assert(effects_view(r@) =~= one(
                    EffectView::RuntimeTerminated { workspace_id: w, runtime_id: rt, reason },
                ));
                r
            },
            other => {
                let e = into_error(other);
                self.handle_command_error(workspace_id.as_str(), ManagerOperation::DetachRuntime, &e)
            },
        }
    }

    /// The reply to terminating a workspace's runtime.
    pub fn terminate_reply(&mut self, workspace_id: String, runtime_id: String, reply: Result<Reply, DaemonError>) -> (r: Vec<
        Effect,
    >)
        ensures
            match reply {
                Ok(Reply::SessionTerminated { reason }) => effects_view(r@) == one(
                    EffectView::RuntimeTerminated { workspace_id: workspace_id@, runtime_id: runtime_id@, reason },
                ) && final(self).tracked_workspaces@ == old(self).tracked_workspaces@.remove(workspace_id@)
                    && same_but_tracked(*final(self), *old(self)),
                _ => effects_view(r@) == command_error_views(
                    *old(self),
                    workspace_id@,
                    ManagerOperation::TerminateRuntime,
                    reply_error(reply),
                ) && *final(self) == command_error_state(*old(self), reply_error(reply)),
            },
    {
        match reply {
            Ok(Reply::SessionTerminated { reason }) => {
                self.tracked_workspaces.remove(workspace_id.as_str());
                let mut r: Vec<Effect> = Vec::new();
                let ghost (w, rt) = (workspace_id@, runtime_id@);
                r.push(Effect::RuntimeTerminated { workspace_id, runtime_id, reason });
                assert(effects_view(r@) =~= one(
                    EffectView::RuntimeTerminated { workspace_id: w, runtime_id: rt, reason },
                ));
                r
            },
            other => {
                let e = into_error(other);
                self.handle_command_error(workspace_id.as_str(), ManagerOperation::TerminateRuntime, &e)
            },
        }
    }

    /// The pseudo-workspace that inventory requests report under.
    pub fn inventory_workspace_id(&self) -> (r: String)
        ensures
            r@ == "inventory:"@ + endpoint_key(self.endpoint@),
    {
        let mut r = owned("inventory:");
        let k = self.endpoint.key();
        r.append(k.as_str());
        r
    }

    /// The reply to listing the endpoint's runtimes.
    pub fn inventory_reply(&mut self, reply: Result<Reply, DaemonError>) -> (r: Vec<Effect>)
        ensures
            reply matches Ok(Reply::SessionList) ==> effects_view(r@) == one(EffectView::InventoryLoaded) && *final(self) == *old(self),
            !(reply matches Ok(Reply::SessionList)) ==> effects_view(r@) == command_error_views(
                *old(self),
                "inventory:"@ + endpoint_key(old(self).endpoint@),
                ManagerOperation::RefreshInventory,
                reply_error(reply),
            ) && *final(self) == command_error_state(*old(self), reply_error(reply)),
    {
        match reply {
            Ok(Reply::SessionList) => {
                let mut r: Vec<Effect> = Vec::new();
                r.push(Effect::InventoryLoaded);
                assert(effects_view(r@) =~= one(EffectView::InventoryLoaded));
                r
            },
            other => {
                let e = into_error(other);
                let ws = self.inventory_workspace_id();
                self.handle_command_error(ws.as_str(), ManagerOperation::RefreshInventory, &e)
            },
        }
    }

    /// A workspace is attached to `runtime_id`: it is tracked from now on
    /// and reported open; an empty runtime then gets its first pane for the
    /// layout's placeholder terminal, if there is one, and otherwise the
    /// workspace is connected.
    pub fn workspace_opened(
        &mut self,
        workspace_id: String,
        runtime_id: String,
        runtime_has_panes: bool,
        placeholder_terminal_uuid: Option<String>,
    ) -> (r: Vec<Effect>)
        ensures
            final(self).tracked_workspaces@ == old(self).tracked_workspaces@.insert(workspace_id@, runtime_id),
            same_but_tracked(*final(self), *old(self)),
            effects_view(r@) == one(EffectView::WorkspaceOpened { workspace_id: workspace_id@, runtime_id: runtime_id@ })
                + match placeholder_terminal_uuid {
                Some(p) if !runtime_has_panes => one(
                    EffectView::CreatePlaceholderPane {
                        workspace_id: workspace_id@,
                        runtime_id: runtime_id@,
                        layout_terminal_uuid: p@,
                    },
                ),
                _ => one(status_view(workspace_id@, StatusView::Connected)),
            },
    {
        self.tracked_workspaces.insert(workspace_id.clone(), runtime_id.clone());
        let mut r: Vec<Effect> = Vec::new();
        r.push(Effect::WorkspaceOpened { workspace_id: workspace_id.clone(), runtime_id: runtime_id.clone() });
        match placeholder_terminal_uuid {
            Some(p) if !runtime_has_panes => {
                let ghost (w, rt, pv) = (workspace_id@, runtime_id@, p@);
                r.push(Effect::CreatePlaceholderPane { workspace_id, runtime_id, layout_terminal_uuid: p });
                assert(effects_view(r@) =~= one(EffectView::WorkspaceOpened { workspace_id: w, runtime_id: rt }) + one(
                    EffectView::CreatePlaceholderPane { workspace_id: w, runtime_id: rt, layout_terminal_uuid: pv },
                ));
            },
            _ => {
                r.push(Effect::Status { workspace_id: workspace_id.clone(), status: ConnectionStatus::Connected });
                assert(effects_view(r@) =~= one(
                    EffectView::WorkspaceOpened { workspace_id: workspace_id@, runtime_id: runtime_id@ },
                ) + one(status_view(workspace_id@, StatusView::Connected)));
            },
        }
        r
    }

    /// Stop tracking a workspace.
    pub fn forget_workspace(&mut self, workspace_id: &str)
        ensures
            final(self).tracked_workspaces@ == old(self).tracked_workspaces@.remove(workspace_id@),
            same_but_tracked(*final(self), *old(self)),
    {
        self.tracked_workspaces.remove(workspace_id);
    }
}

/// The workspaces of `m` bound to a runtime other than `runtime_id`.
pub open spec fn bound_elsewhere(m: Map<Seq<char>, String>, runtime_id: Seq<char>) -> Set<Seq<char>> {
    Set::new(|k: Seq<char>| m.dom().contains(k) && m[k]@ != runtime_id)
}

/// The state with the attempt counter set back to `attempt`.
pub open spec fn with_attempt(s: ActorState, attempt: u32) -> ActorState {
    ActorState { backoff: ReconnectBackoff { reconnect_attempt: attempt, ..s.backoff }, ..s }
}

impl ActorState {
    /// The workspace a reconnect attempt connects for: none while
    /// connected or with nothing to restore, else the first tracked one.
    pub fn reconnect_target(&self) -> (r: Option<String>)
        ensures
            (self.connected || self.tracked_workspaces.keys().len() == 0) ==> r is None,
            !(self.connected || self.tracked_workspaces.keys().len() == 0) ==> (r matches Some(w) && w@
                == self.tracked_workspaces.keys()[0]),
    {
        if self.connected || self.tracked_workspaces.is_empty() {
            return None;
        }
        Some(self.tracked_workspaces.key_at(0).clone())
    }

    /// A reconnect attempt could not connect. A transient problem has
    /// already scheduled the next attempt; any other schedules one at the
    /// longest delay, since it may clear up (a daemon restarted with the
    /// right version).
    pub fn reconnect_failed(&mut self, workspace_id: &str, error: &DaemonError) -> (r: Vec<Effect>)
        ensures
            classify_view(*error) is DaemonUnavailable ==> effects_view(r@) == connect_failure_views(
                *old(self),
                workspace_id@,
                classify_view(*error),
            ) && *final(self) == connect_failure_state(*old(self), classify_view(*error)),
            !(classify_view(*error) is DaemonUnavailable) ==> effects_view(r@) == connect_failure_views(
                *old(self),
                workspace_id@,
                classify_view(*error),
            ) + one(EffectView::ScheduleReconnect { delay_secs: old(self).backoff.reconnect_delay_secs })
                && *final(self) == with_attempt(*old(self), sat_inc_u32(old(self).backoff.reconnect_attempt)),
    {
        let (mut r, problem) = self.connect_failed(workspace_id, error);
        if !problem.is_transient() {
            let delay = self.backoff.schedule_for_problem(&problem);
            let ghost before = r@;
            r.push(Effect::ScheduleReconnect { delay_secs: delay });
            assert(effects_view(r@) =~= effects_view(before) + one(
                EffectView::ScheduleReconnect { delay_secs: old(self).backoff.reconnect_delay_secs },
            ));
        }
        r
    }

    /// The outcome of reattaching one tracked workspace after a reconnect,
    /// and whether to stop reattaching the rest (on a transient failure).
    pub fn reattach_result(&self, workspace_id: String, runtime_id: String, result: Result<(), DaemonError>) -> (r: (
        Vec<Effect>,
        bool,
    ))
        ensures
            match result {
                Ok(()) => effects_view(r.0@) == seq![
                    EffectView::WorkspaceOpened { workspace_id: workspace_id@, runtime_id: runtime_id@ },
                    status_view(workspace_id@, StatusView::Recovered),
                ] && !r.1,
                Err(e) => if classify_view(e) is SessionMissing {
                    effects_view(r.0@) == one(status_view(workspace_id@, StatusView::SessionMissing)) && !r.1
                } else {
                    effects_view(r.0@) == error_views(
                        workspace_id@,
                        ManagerOperation::OpenWorkspace,
                        classify_view(e),
                        error_text(e),
                    ) && r.1 == (classify_view(e) is DaemonUnavailable)
                },
            },
    {
        match result {
            Ok(()) => {
                let mut r: Vec<Effect> = Vec::new();
                let ghost (w, rt) = (workspace_id@, runtime_id@);
                let ws2 = workspace_id.clone();
                r.push(Effect::WorkspaceOpened { workspace_id, runtime_id });
                r.push(Effect::Status { workspace_id: ws2, status: ConnectionStatus::Recovered });
                assert(effects_view(r@) =~= seq![
                    EffectView::WorkspaceOpened { workspace_id: w, runtime_id: rt },
                    status_view(w, StatusView::Recovered),
                ]);
                (r, false)
            },
            Err(e) => {
                let problem = classify_connection_problem(&e);
                if matches!(problem, ConnectionProblem::SessionMissing) {
                    let mut r: Vec<Effect> = Vec::new();
                    let ghost w = workspace_id@;
                    r.push(Effect::Status { workspace_id, status: ConnectionStatus::SessionMissing });
                    assert(effects_view(r@) =~= one(status_view(w, StatusView::SessionMissing)));
                    (r, false)
                } else {
                    let transient = problem.is_transient();
                    let r = emit_error(workspace_id.as_str(), ManagerOperation::OpenWorkspace, problem, e.message());
                    (r, transient)
                }
            },
        }
    }

    /// Reattaching stopped on a transient failure: the attempt counter goes
    /// back to where this reconnect cycle began, so the delay keeps
    /// growing, and the connection is dropped.
    pub fn reconnect_aborted(&mut self, saved_attempt: u32) -> (r: Vec<Effect>)
        ensures
            effects_view(r@) == disconnect_views(with_attempt(*old(self), saved_attempt)),
            *final(self) == disconnected(with_attempt(*old(self), saved_attempt)),
    {
        self.backoff.reconnect_attempt = saved_attempt;
        self.handle_disconnect()
    }

    /// Stop tracking the workspaces bound to `runtime_id`.
    pub fn untrack_runtime(&mut self, runtime_id: &str)
        ensures
            final(self).tracked_workspaces@ == old(self).tracked_workspaces@.restrict(
                bound_elsewhere(old(self).tracked_workspaces@, runtime_id@),
            ),
            same_but_tracked(*final(self), *old(self)),
    {
        let ghost m = self.tracked_workspaces@;
        let ghost keys = self.tracked_workspaces.keys();
        let n = self.tracked_workspaces.len();
        let mut keep: Vec<String> = Vec::new();
        let mut i: usize = 0;
        while i < n
            invariant
                i <= n,
                n == keys.len(),
                keys == self.tracked_workspaces.keys(),
                m == self.tracked_workspaces@,
                self.tracked_workspaces.wf(),
                forall|k: Seq<char>| #[trigger] strs_view(keep@).contains(k) <==> (keys.take(i as int).contains(k)
                    && m[k]@ != runtime_id@),
            decreases n - i,
        {
            let k = self.tracked_workspaces.key_at(i);
            let v = self.tracked_workspaces.value_at(i);
            let ghost before = strs_view(keep@);
            if !str_eq(v.as_str(), runtime_id) {
                keep.push(k.clone());
            }
            proof {
                let t1 = keys.take(i + 1);
                let t0 = keys.take(i as int);
                assert(t1 =~= t0.push(keys[i as int]));
                assert(k@ == keys[i as int]);
                assert(m[k@] == *v);
                if !(v@ == runtime_id@) {
                    assert(strs_view(keep@) =~= before.push(k@));
                } else {
                    assert(strs_view(keep@) =~= before);
                }
                assert forall|x: Seq<char>| #[trigger] strs_view(keep@).contains(x) <==> (t1.contains(x) && m[x]@
                    != runtime_id@) by {
                    if x == k@ {
                        assert(t1[i as int] == x);
                        if !(v@ == runtime_id@) {
                            assert(strs_view(keep@)[before.len() as int] == x);
                        } else {
                            assert(strs_view(keep@) == before);
                            assert(before.contains(x) ==> m[x]@ != runtime_id@);
                        }
                    } else {
                        if t1.contains(x) {
                            let j = choose|j: int| 0 <= j < t1.len() && t1[j] == x;
                            assert(j < i);
                            assert(t0[j] == x);
                        }
                        if t0.contains(x) {
                            let j = choose|j: int| 0 <= j < t0.len() && t0[j] == x;
                            assert(t1[j] == x);
                        }
                        if strs_view(keep@).contains(x) {
                            let j = choose|j: int| 0 <= j < strs_view(keep@).len() && strs_view(keep@)[j] == x;
                            if j < before.len() {
                                assert(before[j] == x);
                            }
                        }
                        if before.contains(x) {
                            let j = choose|j: int| 0 <= j < before.len() && before[j] == x;
                            assert(strs_view(keep@)[j] == x);
                        }
                    }
                }
            }
            i = i + 1;
        }
        assert(keys.take(n as int) =~= keys);
        self.tracked_workspaces.retain_keys(keep.as_slice());
        assert(self.tracked_workspaces@ =~= m.restrict(bound_elsewhere(m, runtime_id@)));
    }

    /// A message arrived from the daemon, of the given kind; for a runtime
    /// ending, `terminated_runtime` is its id. A heartbeat reply is kept;
    /// anything else is forwarded to the window, after dropping the
    /// workspaces of an ended runtime. Returns whether to forward.
    pub fn inbound_message(&mut self, kind: &InboundKind, terminated_runtime: Option<&str>) -> (forward: bool)
        ensures
            final(self).heartbeat == observe_spec(old(self).heartbeat, *kind).0,
            forward == !observe_spec(old(self).heartbeat, *kind).1,
            final(self).endpoint == old(self).endpoint,
            final(self).connected == old(self).connected,
            final(self).backoff == old(self).backoff,
            final(self).daemon_start_attempted == old(self).daemon_start_attempted,
            final(self).auto_start_daemon == old(self).auto_start_daemon,
            match terminated_runtime {
                Some(rid) if forward => final(self).tracked_workspaces@ == old(self).tracked_workspaces@.restrict(
                    bound_elsewhere(old(self).tracked_workspaces@, rid@),
                ),
                _ => final(self).tracked_workspaces@ == old(self).tracked_workspaces@,
            },
    {
        let pong = self.heartbeat.observe_inbound(kind);
        if pong {
            return false;
        }
        if let Some(rid) = terminated_runtime {
            self.untrack_runtime(rid);
        }
        true
    }
}

/// Once a runtime has ended, no workspace still tracked is bound to it,
/// and every other binding stays as it was.
pub proof fn law_ended_runtime_untracked(m: Map<Seq<char>, String>, runtime_id: Seq<char>)
    ensures
        forall|k: Seq<char>| #[trigger] m.restrict(bound_elsewhere(m, runtime_id)).dom().contains(k) ==> m[k]@ != runtime_id,
        forall|k: Seq<char>| m.dom().contains(k) && m[k]@ != runtime_id ==> #[trigger] m.restrict(bound_elsewhere(m, runtime_id)).dom().contains(k)
            && m.restrict(bound_elsewhere(m, runtime_id))[k] == m[k],
{
}

/// A transient failure of a command on a tracked workspace drops the
/// connection and schedules exactly one reconnect, at the progressive
/// delay, counting one more attempt.
pub proof fn law_transient_failure_schedules_reconnect(s: ActorState, ws: Seq<char>, op: ManagerOperation, e: DaemonError)
    requires
        classify_view(e) is DaemonUnavailable,
        s.tracked_workspaces.keys().len() > 0,
    ensures
        command_error_views(s, ws, op, e).last() == (EffectView::ScheduleReconnect { delay_secs: next_delay(s.backoff) }),
        !command_error_state(s, e).connected,
        command_error_state(s, e).backoff.reconnect_attempt == sat_inc_u32(s.backoff.reconnect_attempt),
{
}

/// What kind of message the daemon sent, as the actor tells them apart.
#[derive(Debug, Clone, Copy, PartialEq, Eq, Structural)]
pub enum MessageKind {
    /// A heartbeat reply.
    Pong { nonce: u64 },
    /// Pane output or a pane, title, directory, bell, size or name change.
    Output,
    /// A runtime ended.
    SessionTerminated,
    /// Any other message: the answer to a request.
    Answer,
    /// A message without content.
    Empty,
}

/// What the heartbeat sees of a message.
pub open spec fn inbound_of(kind: MessageKind) -> InboundKind {
    match kind {
        MessageKind::Pong { nonce } => InboundKind::Pong { nonce },
        MessageKind::Empty => InboundKind::Empty,
        _ => InboundKind::Other,
    }
}

/// What the heartbeat sees of a message.
pub fn inbound_kind(kind: &MessageKind) -> (r: InboundKind)
    ensures
        r == inbound_of(*kind),
{
    match kind {
        MessageKind::Pong { nonce } => InboundKind::Pong { nonce: *nonce },
        MessageKind::Empty => InboundKind::Empty,
        _ => InboundKind::Other,
    }
}

/// What to do with a message while a request waits for its answer.
#[derive(Debug, Clone, Copy, PartialEq, Eq, Structural)]
pub enum AwaitStep {
    /// A heartbeat reply: keep waiting.
    Skip,
    /// A push for the window: forward it and keep waiting.
    Forward,
    /// The answer to the request.
    Answer,
}

/// The step for a message while waiting: output is pushed on; a runtime
/// ending is pushed on too unless the request itself ends a runtime.
pub open spec fn await_step(kind: MessageKind, expect_terminated: bool) -> AwaitStep {
    match kind {
        MessageKind::Pong { .. } => AwaitStep::Skip,
        MessageKind::Output => AwaitStep::Forward,
        MessageKind::SessionTerminated => if expect_terminated {
            AwaitStep::Answer
        } else {
            AwaitStep::Forward
        },
        _ => AwaitStep::Answer,
    }
}

impl ActorState {
    /// A message arrived while a request waits for its answer; for a
    /// runtime ending, `terminated_runtime` is its id. The heartbeat takes
    /// note of it; a runtime ending that is pushed on also drops the
    /// workspaces bound to that runtime.
    pub fn awaiting_answer(&mut self, kind: &MessageKind, expect_terminated: bool, terminated_runtime: Option<&str>) -> (r: AwaitStep)
        ensures
            r == await_step(*kind, expect_terminated),
            final(self).heartbeat == observe_spec(old(self).heartbeat, inbound_of(*kind)).0,
            final(self).endpoint == old(self).endpoint,
            final(self).connected == old(self).connected,
            final(self).backoff == old(self).backoff,
            final(self).daemon_start_attempted == old(self).daemon_start_attempted,
            final(self).auto_start_daemon == old(self).auto_start_daemon,
            match terminated_runtime {
                Some(rid) if r is Forward && *kind is SessionTerminated => final(self).tracked_workspaces@ == old(
                    self,
                ).tracked_workspaces@.restrict(bound_elsewhere(old(self).tracked_workspaces@, rid@)),
                _ => final(self).tracked_workspaces@ == old(self).tracked_workspaces@,
            },
    {
        let inbound = inbound_kind(kind);
        let _ = self.heartbeat.observe_inbound(&inbound);
        match kind {
            MessageKind::Pong { .. } => AwaitStep::Skip,
            MessageKind::Output => AwaitStep::Forward,
            MessageKind::SessionTerminated => {
                if expect_terminated {
                    AwaitStep::Answer
                } else {
                    if let Some(rid) = terminated_runtime {
                        self.untrack_runtime(rid);
                    }
                    AwaitStep::Forward
                }
            },
            _ => AwaitStep::Answer,
        }
    }

    /// Whether the heartbeat runs: only on a split connection with
    /// workspaces to keep alive.
    pub fn heartbeat_armed(&self, split: bool) -> (b: bool)
        ensures
            b == (split && self.tracked_workspaces@.dom().len() > 0),
    {
        split && !self.tracked_workspaces.is_empty()
    }
}

/// The problem reported for a runtime or pane id that is not a UUID.
pub const INVALID_RUNTIME_UUID: &'static str = "Invalid runtime UUID";

/// Read a runtime or pane id of a workspace's command as a UUID: its 16
/// bytes, or the failure to report (no status change comes with it).
pub fn parse_uuid(workspace_id: &str, operation: ManagerOperation, value: &str) -> (r: Result<Vec<u8>, Effect>)
    ensures
        r is Ok <==> uuid_from_text(value@) is Some,
        r matches Ok(b) ==> uuid_from_text(value@) == Some(b@),
        r matches Err(e) ==> (e@ matches EffectView::Failed { workspace_id: w, operation: o, problem: p, .. } && w
            == workspace_id@ && o == operation && p == ProblemView::Protocol(INVALID_RUNTIME_UUID@)),
{
    match parse_uuid_text(value) {
        Ok(bytes) => Ok(bytes),
        Err(detail) => Err(invalid_uuid(workspace_id, operation, detail)),
    }
}

/// The failure reported for an id that is not a UUID, with the parser's
/// message as detail.
pub fn invalid_uuid(workspace_id: &str, operation: ManagerOperation, detail: String) -> (e: Effect)
    ensures
        e@ == (EffectView::Failed {
            workspace_id: workspace_id@,
            operation,
            problem: ProblemView::Protocol(INVALID_RUNTIME_UUID@),
            detail: detail@,
        }),
{
    Effect::Failed {
        workspace_id: workspace_id.to_string(),
        operation,
        problem: ConnectionProblem::Protocol(owned(INVALID_RUNTIME_UUID)),
        detail,
    }
}

} // verus!
