//! Managed workspace runtimes: endpoints, pane bindings, the connection
//! state machine, and how connection state is presented.

use vstd::prelude::*;

use crate::daemon::{DaemonError, ProtocolErrorKind};
use crate::host::{normalize_key, normalize_ssh_key, LOCAL_KEY};
use crate::order::strictly_sorted;
use crate::seqs::{keep, lemma_keep_contains, lemma_keep_sorted, lemma_keep_take, lemma_take_to_set};
use crate::str_map::{StrMap, StrSet};
use crate::text::{
    chars_of, contains, contains_chars, dec, opt_view, owned, push_decimal,
    str_eq, strs_view, to_lowercase, trim, trimmed, unicode_lowercase,
};

verus! {

/// Retention policy for a managed workspace runtime.
#[derive(Debug, Clone, Copy, PartialEq, Eq, Structural)]
pub enum WorkspacePolicy {
    /// Keep the runtime across detach and daemon restart.
    Persistent,
    /// Do not reconstruct the runtime after daemon restart.
    Ephemeral,
}

impl WorkspacePolicy {
    /// Human-readable label for the sidebar and status UI.
    pub fn label(self) -> (s: &'static str)
        ensures
            s@ == match self {
                WorkspacePolicy::Persistent => "Persistent"@,
                WorkspacePolicy::Ephemeral => "Ephemeral"@,
            },
    {
        match self {
            WorkspacePolicy::Persistent => "Persistent",
            WorkspacePolicy::Ephemeral => "Ephemeral",
        }
    }
}

impl Default for WorkspacePolicy {
    fn default() -> (p: Self)
        ensures
            p == WorkspacePolicy::Persistent,
    {
        WorkspacePolicy::Persistent
    }
}

/// Daemon endpoint that backs a managed workspace runtime.
#[derive(Debug, PartialEq, Eq, PartialOrd, Ord)]
pub enum RuntimeEndpoint {
    /// The local daemon on the current machine.
    Local,
    /// A remote daemon reached through SSH.
    Remote { host: String },
}

/// Mathematical model of a [`RuntimeEndpoint`].
pub enum EndpointView {
    Local,
    Remote { host: Seq<char> },
}

impl View for RuntimeEndpoint {
    type V = EndpointView;

    open spec fn view(&self) -> EndpointView {
        match self {
            RuntimeEndpoint::Local => EndpointView::Local,
            RuntimeEndpoint::Remote { host } => EndpointView::Remote { host: host@ },
        }
    }
}

impl Clone for RuntimeEndpoint {
    fn clone(&self) -> (r: Self)
        ensures
            r@ == self@,
    {
        match self {
            RuntimeEndpoint::Local => RuntimeEndpoint::Local,
            RuntimeEndpoint::Remote { host } => RuntimeEndpoint::Remote { host: host.clone() },
        }
    }
}

impl Default for RuntimeEndpoint {
    fn default() -> (e: Self)
        ensures
            e@ == EndpointView::Local,
    {
        RuntimeEndpoint::Local
    }
}

/// The stable key of an endpoint.
pub open spec fn endpoint_key(e: EndpointView) -> Seq<char> {
    match e {
        EndpointView::Local => "local"@,
        EndpointView::Remote { host } => "remote:"@ + host,
    }
}

/// The host key of an endpoint (the host model's key).
pub open spec fn endpoint_host_key(e: EndpointView) -> Seq<char> {
    match e {
        EndpointView::Local => "local"@,
        EndpointView::Remote { host } => normalize_key(host),
    }
}

impl RuntimeEndpoint {
    /// Stable key string for maps and diagnostics.
    pub fn key(&self) -> (k: String)
        ensures
            k@ == endpoint_key(self@),
    {
        match self {
            RuntimeEndpoint::Local => owned("local"),
            RuntimeEndpoint::Remote { host } => {
                let mut k = owned("remote:");
                k.append(host.as_str());
                k
            },
        }
    }

    /// Host key compatible with the host model for place/command filtering.
    pub fn host_key(&self) -> (k: String)
        ensures
            k@ == endpoint_host_key(self@),
    {
        match self {
            RuntimeEndpoint::Local => owned(LOCAL_KEY),
            RuntimeEndpoint::Remote { host } => normalize_ssh_key(host.as_str()),
        }
    }
}

/// The views of a map's string values.
pub open spec fn values_view(m: Map<Seq<char>, String>) -> Map<Seq<char>, Seq<char>> {
    m.map_values(|s: String| s@)
}

/// Persisted managed-runtime metadata attached to a workspace.
#[derive(Debug, Clone, PartialEq, Eq)]
pub struct WorkspaceRuntime {
    /// Whether this workspace is daemon-managed.
    pub managed: bool,
    /// Endpoint that hosts the runtime.
    pub endpoint: RuntimeEndpoint,
    /// Runtime retention policy.
    pub policy: WorkspacePolicy,
    /// Live daemon runtime ID, if known.
    pub runtime_id: Option<String>,
    /// Stable layout-terminal UUID -> runtime-pane UUID bindings.
    pub pane_bindings: StrMap<String>,
    /// Layout panes that still need a daemon pane assignment.
    pub pending_layout_panes: StrSet,
}

impl Default for WorkspaceRuntime {
    fn default() -> (r: Self)
        ensures
            !r.managed,
            r.endpoint@ == EndpointView::Local,
            r.policy == WorkspacePolicy::Persistent,
            r.runtime_id is None,
            r.pane_bindings@ == Map::<Seq<char>, String>::empty(),
            r.pending_layout_panes@.dom() == Set::<Seq<char>>::empty(),
    {
        WorkspaceRuntime {
            managed: false,
            endpoint: RuntimeEndpoint::Local,
            policy: WorkspacePolicy::Persistent,
            runtime_id: None,
            pane_bindings: StrMap::new(),
            pending_layout_panes: StrSet::new(),
        }
    }
}

/// Bindings after making sure every listed layout terminal has one (a
/// placeholder binding to itself when new) and dropping the others.
pub open spec fn placeholder_bindings(old: Map<Seq<char>, Seq<char>>, layout: Set<Seq<char>>) -> Map<Seq<char>, Seq<char>> {
    Map::new(|k: Seq<char>| layout.contains(k), |k: Seq<char>| if old.contains_key(k) { old[k] } else { k })
}

/// Pending panes after adding the new placeholders and dropping unlisted ones.
pub open spec fn placeholder_pending(old_pending: Set<Seq<char>>, old_bound: Set<Seq<char>>, layout: Set<Seq<char>>) -> Set<Seq<char>> {
    old_pending.union(layout.difference(old_bound)).intersect(layout)
}

/// A map with `old` renamed to `new` (when `old` is a key).
pub open spec fn rename_key<V>(m: Map<Seq<char>, V>, old: Seq<char>, new: Seq<char>) -> Map<Seq<char>, V> {
    if m.contains_key(old) {
        m.remove(old).insert(new, m[old])
    } else {
        m
    }
}

/// A set with `old` renamed to `new` (when `old` is a member).
pub open spec fn rename_member(s: Set<Seq<char>>, old: Seq<char>, new: Seq<char>) -> Set<Seq<char>> {
    if s.contains(old) {
        s.remove(old).insert(new)
    } else {
        s
    }
}

impl WorkspaceRuntime {
    /// Managed local runtime metadata for a new workspace.
    pub fn managed_local(policy: WorkspacePolicy, layout_terminal_uuids: &[String]) -> (r: Self)
        ensures
            r.managed,
            r.endpoint@ == EndpointView::Local,
            r.policy == policy,
            r.runtime_id is None,
            values_view(r.pane_bindings@) == placeholder_bindings(Map::empty(), strs_view(layout_terminal_uuids@).to_set()),
            r.pending_layout_panes@.dom() == strs_view(layout_terminal_uuids@).to_set(),
    {
        Self::managed(RuntimeEndpoint::Local, policy, layout_terminal_uuids)
    }

    /// Managed remote runtime metadata for a new workspace.
    pub fn managed_remote(host: &str, policy: WorkspacePolicy, layout_terminal_uuids: &[String]) -> (r: Self)
        ensures
            r.managed,
            r.endpoint@ == (EndpointView::Remote { host: host@ }),
            r.policy == policy,
            r.runtime_id is None,
            values_view(r.pane_bindings@) == placeholder_bindings(Map::empty(), strs_view(layout_terminal_uuids@).to_set()),
            r.pending_layout_panes@.dom() == strs_view(layout_terminal_uuids@).to_set(),
    {
        Self::managed(RuntimeEndpoint::Remote { host: owned(host) }, policy, layout_terminal_uuids)
    }

    fn managed(endpoint: RuntimeEndpoint, policy: WorkspacePolicy, layout_terminal_uuids: &[String]) -> (r: Self)
        ensures
            r.managed,
            r.endpoint@ == endpoint@,
            r.policy == policy,
            r.runtime_id is None,
            values_view(r.pane_bindings@) == placeholder_bindings(Map::empty(), strs_view(layout_terminal_uuids@).to_set()),
            r.pending_layout_panes@.dom() == strs_view(layout_terminal_uuids@).to_set(),
    {
        let mut runtime = WorkspaceRuntime {
            managed: true,
            endpoint,
            policy,
            runtime_id: None,
            pane_bindings: StrMap::new(),
            pending_layout_panes: StrSet::new(),
        };
        runtime.ensure_placeholder_bindings(layout_terminal_uuids);
        assert(values_view(Map::<Seq<char>, String>::empty()) =~= Map::empty());
        let ghost l = strs_view(layout_terminal_uuids@).to_set();
        assert(placeholder_pending(Set::empty(), Set::empty(), l) =~= l);
        runtime
    }

    /// True when this workspace should use the daemon-backed terminal path.
    pub fn is_managed(&self) -> (b: bool)
        ensures
            b == self.managed,
    {
        self.managed
    }

    /// Ensure every layout terminal has at least a self-binding placeholder,
    /// and drop bindings and pending marks of terminals no longer listed.
    pub fn ensure_placeholder_bindings(&mut self, layout_terminal_uuids: &[String])
        ensures
            values_view(final(self).pane_bindings@) == placeholder_bindings(
                values_view(old(self).pane_bindings@),
                strs_view(layout_terminal_uuids@).to_set(),
            ),
            final(self).pending_layout_panes@.dom() == placeholder_pending(
                old(self).pending_layout_panes@.dom(),
                old(self).pane_bindings@.dom(),
                strs_view(layout_terminal_uuids@).to_set(),
            ),
            final(self).managed == old(self).managed,
            final(self).endpoint == old(self).endpoint,
            final(self).policy == old(self).policy,
            final(self).runtime_id == old(self).runtime_id,
    {
        let ghost l = strs_view(layout_terminal_uuids@).to_set();
        let ghost ob = values_view(self.pane_bindings@);
        let ghost op = self.pending_layout_panes@.dom();
        let mut i: usize = 0;
        while i < layout_terminal_uuids.len()
            invariant
                i <= layout_terminal_uuids.len(),
                forall|k: Seq<char>| #[trigger] self.pane_bindings@.dom().contains(k) <==> (ob.contains_key(k)
                    || strs_view(layout_terminal_uuids@).take(i as int).contains(k)),
                forall|k: Seq<char>| #[trigger] self.pane_bindings@.dom().contains(k) ==> self.pane_bindings@[k]@ == if ob.contains_key(k) {
                    ob[k]
                } else {
                    k
                },
                forall|k: Seq<char>| #[trigger] self.pending_layout_panes@.dom().contains(k) <==> (op.contains(k) || (
                    strs_view(layout_terminal_uuids@).take(i as int).contains(k) && !ob.contains_key(k))),
                self.managed == old(self).managed,
                self.endpoint == old(self).endpoint,
                self.policy == old(self).policy,
                self.runtime_id == old(self).runtime_id,
                ob == values_view(old(self).pane_bindings@),
                op == old(self).pending_layout_panes@.dom(),
            decreases layout_terminal_uuids.len() - i,
        {
            let u = &layout_terminal_uuids[i];
            let ghost t0 = strs_view(layout_terminal_uuids@).take(i as int);
            let ghost t1 = strs_view(layout_terminal_uuids@).take(i + 1);
            assert(t1 =~= t0.push(u@));
            assert forall|k: Seq<char>| t1.contains(k) == (t0.contains(k) || k == u@) by {
                if t1.contains(k) {
                    let q = choose|q: int| 0 <= q < t1.len() && t1[q] == k;
                    if q < t0.len() {
                        assert(t0[q] == k);
                    }
                }
                if t0.contains(k) {
                    let q = choose|q: int| 0 <= q < t0.len() && t0[q] == k;
                    assert(t1[q] == k);
                }
                if k == u@ {
                    assert(t1[i as int] == k);
                }
            }
            if !self.pane_bindings.contains_key(u.as_str()) {
                assert(!ob.contains_key(u@));
                self.pane_bindings.insert(u.clone(), u.clone());
                self.pending_layout_panes.insert_key(u.clone());
            }
            i = i + 1;
        }
        proof {
            assert(strs_view(layout_terminal_uuids@).take(layout_terminal_uuids@.len() as int) =~= strs_view(layout_terminal_uuids@));
        }
        self.pane_bindings.retain_keys(layout_terminal_uuids);
        self.pending_layout_panes.retain_keys(layout_terminal_uuids);
        proof {
            assert(values_view(self.pane_bindings@) =~= placeholder_bindings(ob, l));
            assert(self.pending_layout_panes@.dom() =~= placeholder_pending(op, old(self).pane_bindings@.dom(), l));
        }
    }

    /// Replace a layout terminal UUID while preserving its runtime binding and
    /// pending mark.
    pub fn replace_layout_terminal_uuid(&mut self, old_uuid: &str, new_uuid: &str)
        ensures
            old_uuid@ == new_uuid@ ==> values_view(final(self).pane_bindings@) == values_view(old(self).pane_bindings@)
                && final(self).pending_layout_panes@.dom() == old(self).pending_layout_panes@.dom(),
            old_uuid@ != new_uuid@ ==> values_view(final(self).pane_bindings@) == rename_key(
                values_view(old(self).pane_bindings@),
                old_uuid@,
                new_uuid@,
            ) && final(self).pending_layout_panes@.dom() == rename_member(
                old(self).pending_layout_panes@.dom(),
                old_uuid@,
                new_uuid@,
            ),
            final(self).managed == old(self).managed,
            final(self).endpoint == old(self).endpoint,
            final(self).policy == old(self).policy,
            final(self).runtime_id == old(self).runtime_id,
    {
        if str_eq(old_uuid, new_uuid) {
            return;
        }
        let ghost ob = values_view(self.pane_bindings@);
        let ghost op = self.pending_layout_panes@.dom();
        if let Some(bound) = self.pane_bindings.remove(old_uuid) {
            self.pane_bindings.insert(owned(new_uuid), bound);
        }
        if self.pending_layout_panes.remove_key(old_uuid) {
            self.pending_layout_panes.insert_key(owned(new_uuid));
        }
        assert(values_view(self.pane_bindings@) =~= rename_key(ob, old_uuid@, new_uuid@));
        assert(self.pending_layout_panes@.dom() =~= rename_member(op, old_uuid@, new_uuid@));
    }

    /// Bind a layout pane to a runtime pane; it is no longer pending.
    pub fn bind_runtime_pane(&mut self, layout_uuid: &str, runtime_pane_uuid: &str)
        ensures
            values_view(final(self).pane_bindings@) == values_view(old(self).pane_bindings@).insert(
                layout_uuid@,
                runtime_pane_uuid@,
            ),
            final(self).pending_layout_panes@.dom() == old(self).pending_layout_panes@.dom().remove(layout_uuid@),
            final(self).managed == old(self).managed,
            final(self).endpoint == old(self).endpoint,
            final(self).policy == old(self).policy,
            final(self).runtime_id == old(self).runtime_id,
    {
        let ghost ob = values_view(self.pane_bindings@);
        self.pane_bindings.insert(owned(layout_uuid), owned(runtime_pane_uuid));
        self.pending_layout_panes.remove_key(layout_uuid);
        assert(values_view(self.pane_bindings@) =~= ob.insert(layout_uuid@, runtime_pane_uuid@));
    }

    /// Whether the layout pane is still waiting for a daemon pane assignment.
    pub fn is_layout_pane_pending(&self, layout_uuid: &str) -> (b: bool)
        ensures
            b == self.pending_layout_panes@.dom().contains(layout_uuid@),
    {
        self.pending_layout_panes.contains(layout_uuid)
    }
}

/// Class of connection problem used by the pure connection state machine.
#[derive(Debug, PartialEq, Eq)]
pub enum ConnectionProblem {
    DaemonUnavailable,
    /// The daemon process died and repeated reconnect attempts failed.
    DaemonDied,
    VersionMismatch,
    OwnershipConflict,
    PermissionDenied,
    SessionMissing,
    Protocol(String),
    UserActionRequired(String),
}

impl Clone for ConnectionProblem {
    fn clone(&self) -> (r: Self)
        ensures
            r == *self,
    {
        match self {
            ConnectionProblem::DaemonUnavailable => ConnectionProblem::DaemonUnavailable,
            ConnectionProblem::DaemonDied => ConnectionProblem::DaemonDied,
            ConnectionProblem::VersionMismatch => ConnectionProblem::VersionMismatch,
            ConnectionProblem::OwnershipConflict => ConnectionProblem::OwnershipConflict,
            ConnectionProblem::PermissionDenied => ConnectionProblem::PermissionDenied,
            ConnectionProblem::SessionMissing => ConnectionProblem::SessionMissing,
            ConnectionProblem::Protocol(d) => ConnectionProblem::Protocol(d.clone()),
            ConnectionProblem::UserActionRequired(d) => ConnectionProblem::UserActionRequired(d.clone()),
        }
    }
}

/// Mathematical model of a [`ConnectionProblem`].
pub enum ProblemView {
    DaemonUnavailable,
    DaemonDied,
    VersionMismatch,
    OwnershipConflict,
    PermissionDenied,
    SessionMissing,
    Protocol(Seq<char>),
    UserActionRequired(Seq<char>),
}

impl View for ConnectionProblem {
    type V = ProblemView;

    open spec fn view(&self) -> ProblemView {
        match self {
            ConnectionProblem::DaemonUnavailable => ProblemView::DaemonUnavailable,
            ConnectionProblem::DaemonDied => ProblemView::DaemonDied,
            ConnectionProblem::VersionMismatch => ProblemView::VersionMismatch,
            ConnectionProblem::OwnershipConflict => ProblemView::OwnershipConflict,
            ConnectionProblem::PermissionDenied => ProblemView::PermissionDenied,
            ConnectionProblem::SessionMissing => ProblemView::SessionMissing,
            ConnectionProblem::Protocol(d) => ProblemView::Protocol(d@),
            ConnectionProblem::UserActionRequired(d) => ProblemView::UserActionRequired(d@),
        }
    }
}

/// The label of a connection problem, read from its model.
pub open spec fn problem_view_label(p: ProblemView) -> Seq<char> {
    match p {
        ProblemView::DaemonUnavailable => "Daemon unavailable"@,
        ProblemView::DaemonDied => "Daemon stopped"@,
        ProblemView::VersionMismatch => "Version mismatch"@,
        ProblemView::OwnershipConflict => "Runtime already owned"@,
        ProblemView::PermissionDenied => "Permission denied"@,
        ProblemView::SessionMissing => "Session no longer exists"@,
        ProblemView::Protocol(d) => d,
        ProblemView::UserActionRequired(d) => d,
    }
}

/// The label of a connection problem.
pub open spec fn problem_label(p: ConnectionProblem) -> Seq<char> {
    match p {
        ConnectionProblem::DaemonUnavailable => "Daemon unavailable"@,
        ConnectionProblem::DaemonDied => "Daemon stopped"@,
        ConnectionProblem::VersionMismatch => "Version mismatch"@,
        ConnectionProblem::OwnershipConflict => "Runtime already owned"@,
        ConnectionProblem::PermissionDenied => "Permission denied"@,
        ConnectionProblem::SessionMissing => "Session no longer exists"@,
        ConnectionProblem::Protocol(d) => d@,
        ConnectionProblem::UserActionRequired(d) => d@,
    }
}

impl ConnectionProblem {
    /// Whether the manager should auto-retry this problem.
    pub fn is_transient(&self) -> (b: bool)
        ensures
            b == (*self is DaemonUnavailable),
    {
        match self {
            ConnectionProblem::DaemonUnavailable => true,
            _ => false,
        }
    }

    /// Human-readable short label.
    pub fn label(&self) -> (s: String)
        ensures
            s@ == problem_label(*self),
            s@ == problem_view_label(self@),
    {
        match self {
            ConnectionProblem::DaemonUnavailable => owned("Daemon unavailable"),
            ConnectionProblem::DaemonDied => owned("Daemon stopped"),
            ConnectionProblem::VersionMismatch => owned("Version mismatch"),
            ConnectionProblem::OwnershipConflict => owned("Runtime already owned"),
            ConnectionProblem::PermissionDenied => owned("Permission denied"),
            ConnectionProblem::SessionMissing => owned("Session no longer exists"),
            ConnectionProblem::Protocol(d) => d.clone(),
            ConnectionProblem::UserActionRequired(d) => d.clone(),
        }
    }
}

/// Connection state for a managed workspace.
#[derive(Debug, PartialEq, Eq)]
pub enum ConnectionStatus {
    Starting,
    Connecting,
    Connected,
    Reconnecting { attempt: u32, retry_in_secs: u32 },
    Blocked(ConnectionProblem),
    Disconnected,
    Recovered,
    /// The daemon has no record of this workspace's runtime.
    SessionMissing,
}

impl Clone for ConnectionStatus {
    fn clone(&self) -> (r: Self)
        ensures
            r == *self,
    {
        match self {
            ConnectionStatus::Starting => ConnectionStatus::Starting,
            ConnectionStatus::Connecting => ConnectionStatus::Connecting,
            ConnectionStatus::Connected => ConnectionStatus::Connected,
            ConnectionStatus::Reconnecting { attempt, retry_in_secs } => ConnectionStatus::Reconnecting {
                attempt: *attempt,
                retry_in_secs: *retry_in_secs,
            },
            ConnectionStatus::Blocked(p) => ConnectionStatus::Blocked(p.clone()),
            ConnectionStatus::Disconnected => ConnectionStatus::Disconnected,
            ConnectionStatus::Recovered => ConnectionStatus::Recovered,
            ConnectionStatus::SessionMissing => ConnectionStatus::SessionMissing,
        }
    }
}

/// Mathematical model of a [`ConnectionStatus`].
pub enum StatusView {
    Starting,
    Connecting,
    Connected,
    Reconnecting { attempt: u32, retry_in_secs: u32 },
    Blocked(ProblemView),
    Disconnected,
    Recovered,
    SessionMissing,
}

impl View for ConnectionStatus {
    type V = StatusView;

    open spec fn view(&self) -> StatusView {
        match self {
            ConnectionStatus::Starting => StatusView::Starting,
            ConnectionStatus::Connecting => StatusView::Connecting,
            ConnectionStatus::Connected => StatusView::Connected,
            ConnectionStatus::Reconnecting { attempt, retry_in_secs } => StatusView::Reconnecting {
                attempt: *attempt,
                retry_in_secs: *retry_in_secs,
            },
            ConnectionStatus::Blocked(p) => StatusView::Blocked(p@),
            ConnectionStatus::Disconnected => StatusView::Disconnected,
            ConnectionStatus::Recovered => StatusView::Recovered,
            ConnectionStatus::SessionMissing => StatusView::SessionMissing,
        }
    }
}

/// The full label of a connection status.
pub open spec fn status_label(s: ConnectionStatus) -> Seq<char> {
    match s {
        ConnectionStatus::Starting => "Starting"@,
        ConnectionStatus::Connecting => "Connecting"@,
        ConnectionStatus::Connected => "Connected"@,
        ConnectionStatus::Reconnecting { attempt, retry_in_secs } => "Reconnecting in "@ + dec(
            retry_in_secs as nat,
        ) + "s (attempt "@ + dec(attempt as nat) + seq![')'],
        ConnectionStatus::Blocked(ConnectionProblem::DaemonDied) => "Daemon stopped"@,
        ConnectionStatus::Blocked(p) => "Action Required: "@ + problem_label(p),
        ConnectionStatus::Disconnected => "Disconnected"@,
        ConnectionStatus::Recovered => "Recovered"@,
        ConnectionStatus::SessionMissing => "Session no longer exists"@,
    }
}

/// Whether terminal input is enabled in a status.
pub open spec fn status_accepts_input(s: ConnectionStatus) -> bool {
    s is Connected || s is Recovered
}

/// The compact label of a connection status.
pub open spec fn status_short_label(s: ConnectionStatus) -> Seq<char> {
    match s {
        ConnectionStatus::Starting => "Starting"@,
        ConnectionStatus::Connecting => "Connecting"@,
        ConnectionStatus::Connected => "Connected"@,
        ConnectionStatus::Recovered => "Connected"@,
        ConnectionStatus::Reconnecting { retry_in_secs, .. } => "Retry "@ + dec(retry_in_secs as nat) + seq!['s'],
        ConnectionStatus::Blocked(ConnectionProblem::DaemonDied) => "Daemon Stopped"@,
        ConnectionStatus::Blocked(_) => "Action Required"@,
        ConnectionStatus::Disconnected => "Disconnected"@,
        ConnectionStatus::SessionMissing => "Session Missing"@,
    }
}

impl ConnectionStatus {
    /// Human-readable label for panes and sidebar summaries.
    pub fn label(&self) -> (s: String)
        ensures
            s@ == status_label(*self),
    {
        match self {
            ConnectionStatus::Starting => owned("Starting"),
            ConnectionStatus::Connecting => owned("Connecting"),
            ConnectionStatus::Connected => owned("Connected"),
            ConnectionStatus::Reconnecting { attempt, retry_in_secs } => {
                let mut s = owned("Reconnecting in ");
                push_decimal(&mut s, *retry_in_secs as u64);
                s.append("s (attempt ");
                push_decimal(&mut s, *attempt as u64);
                crate::text::push_char(&mut s, ')');
                s
            },
            ConnectionStatus::Blocked(ConnectionProblem::DaemonDied) => owned("Daemon stopped"),
            ConnectionStatus::Blocked(p) => {
                let mut s = owned("Action Required: ");
                let l = p.label();
                s.append(l.as_str());
                s
            },
            ConnectionStatus::Disconnected => owned("Disconnected"),
            ConnectionStatus::Recovered => owned("Recovered"),
            ConnectionStatus::SessionMissing => owned("Session no longer exists"),
        }
    }

    /// Whether terminal input should be enabled for this state.
    pub fn accepts_input(&self) -> (b: bool)
        ensures
            b == status_accepts_input(*self),
    {
        match self {
            ConnectionStatus::Connected | ConnectionStatus::Recovered => true,
            _ => false,
        }
    }

    /// Short label suitable for compact pane headers.
    pub fn short_label(&self) -> (s: String)
        ensures
            s@ == status_short_label(*self),
    {
        match self {
            ConnectionStatus::Starting => owned("Starting"),
            ConnectionStatus::Connecting => owned("Connecting"),
            ConnectionStatus::Connected | ConnectionStatus::Recovered => owned("Connected"),
            ConnectionStatus::Reconnecting { retry_in_secs, .. } => {
                let mut s = owned("Retry ");
                push_decimal(&mut s, *retry_in_secs as u64);
                crate::text::push_char(&mut s, 's');
                s
            },
            ConnectionStatus::Blocked(ConnectionProblem::DaemonDied) => owned("Daemon Stopped"),
            ConnectionStatus::Blocked(_) => owned("Action Required"),
            ConnectionStatus::Disconnected => owned("Disconnected"),
            ConnectionStatus::SessionMissing => owned("Session Missing"),
        }
    }
}

/// How a daemon error is classified for reconnect/blocking policy.
pub open spec fn classify_spec(e: DaemonError) -> ConnectionProblem {
    match e {
        DaemonError::VersionMismatch { .. } => ConnectionProblem::VersionMismatch,
        DaemonError::AttachBlocked => ConnectionProblem::OwnershipConflict,
        DaemonError::ProtocolError { kind, message, .. } => match kind {
            ProtocolErrorKind::RuntimeNotFound => ConnectionProblem::SessionMissing,
            ProtocolErrorKind::OwnershipConflict => ConnectionProblem::OwnershipConflict,
            ProtocolErrorKind::TakeoverRequired => ConnectionProblem::OwnershipConflict,
            ProtocolErrorKind::ProtocolMismatch => ConnectionProblem::Protocol(message),
            ProtocolErrorKind::UnsupportedCapability => ConnectionProblem::Protocol(message),
            ProtocolErrorKind::Other => ConnectionProblem::UserActionRequired(message),
        },
        DaemonError::ServerError { code, message } => if code == 4 {
            ConnectionProblem::SessionMissing
        } else if code == 9 {
            ConnectionProblem::OwnershipConflict
        } else {
            ConnectionProblem::UserActionRequired(message)
        },
        DaemonError::Io(_) => ConnectionProblem::DaemonUnavailable,
        DaemonError::Disconnected => ConnectionProblem::DaemonUnavailable,
        DaemonError::Frame(text) => ConnectionProblem::Protocol(text),
        DaemonError::UnexpectedMessage => ConnectionProblem::Protocol(arbitrary()),
    }
}

/// The model of the problem a daemon error is classified as.
pub open spec fn classify_view(e: DaemonError) -> ProblemView {
    if e is UnexpectedMessage {
        ProblemView::Protocol("Unexpected daemon message"@)
    } else {
        classify_spec(e)@
    }
}

/// Map a transport/protocol error into reconnectable vs blocked UI policy.
pub fn classify_connection_problem(error: &DaemonError) -> (p: ConnectionProblem)
    ensures
        p@ == classify_view(*error),
        !(*error is UnexpectedMessage) ==> p == classify_spec(*error),
        *error is UnexpectedMessage ==> (p matches ConnectionProblem::Protocol(d) && d@ == "Unexpected daemon message"@),
{
    match error {
        DaemonError::VersionMismatch { .. } => ConnectionProblem::VersionMismatch,
        DaemonError::AttachBlocked => ConnectionProblem::OwnershipConflict,
        DaemonError::ProtocolError { kind, message, .. } => match kind {
            ProtocolErrorKind::RuntimeNotFound => ConnectionProblem::SessionMissing,
            ProtocolErrorKind::OwnershipConflict | ProtocolErrorKind::TakeoverRequired => {
                ConnectionProblem::OwnershipConflict
            },
            ProtocolErrorKind::ProtocolMismatch | ProtocolErrorKind::UnsupportedCapability => {
                ConnectionProblem::Protocol(message.clone())
            },
            ProtocolErrorKind::Other => ConnectionProblem::UserActionRequired(message.clone()),
        },
        DaemonError::ServerError { code, message } => {
            if *code == 4 {
                ConnectionProblem::SessionMissing
            } else if *code == 9 {
                ConnectionProblem::OwnershipConflict
            } else {
                ConnectionProblem::UserActionRequired(message.clone())
            }
        },
        DaemonError::Io(_) | DaemonError::Disconnected => ConnectionProblem::DaemonUnavailable,
        DaemonError::Frame(text) => ConnectionProblem::Protocol(text.clone()),
        DaemonError::UnexpectedMessage => ConnectionProblem::Protocol(owned("Unexpected daemon message")),
    }
}

/// Pure event for advancing a connection state machine.
#[derive(Debug, PartialEq, Eq)]
pub enum ConnectionEvent {
    Started,
    Connected,
    Lost,
    RetryScheduled { attempt: u32, retry_in_secs: u32 },
    Failed(ConnectionProblem),
    Recovered,
    SessionMissing,
}

/// The status an event leads to (whatever the current status).
pub open spec fn next_status(event: ConnectionEvent) -> ConnectionStatus {
    match event {
        ConnectionEvent::Started => ConnectionStatus::Starting,
        ConnectionEvent::Connected => ConnectionStatus::Connected,
        ConnectionEvent::Lost => ConnectionStatus::Disconnected,
        ConnectionEvent::RetryScheduled { attempt, retry_in_secs } => ConnectionStatus::Reconnecting { attempt, retry_in_secs },
        ConnectionEvent::Recovered => ConnectionStatus::Recovered,
        ConnectionEvent::Failed(problem) => ConnectionStatus::Blocked(problem),
        ConnectionEvent::SessionMissing => ConnectionStatus::SessionMissing,
    }
}

/// Advance a connection status without involving the UI or daemon I/O.
pub fn advance_connection_status(current: &ConnectionStatus, event: ConnectionEvent) -> (s: ConnectionStatus)
    ensures
        s == next_status(event),
{
    match event {
        ConnectionEvent::Started => ConnectionStatus::Starting,
        ConnectionEvent::Connected => ConnectionStatus::Connected,
        ConnectionEvent::Lost => ConnectionStatus::Disconnected,
        ConnectionEvent::RetryScheduled { attempt, retry_in_secs } => ConnectionStatus::Reconnecting { attempt, retry_in_secs },
        ConnectionEvent::Recovered => ConnectionStatus::Recovered,
        ConnectionEvent::Failed(problem) => ConnectionStatus::Blocked(problem),
        ConnectionEvent::SessionMissing => ConnectionStatus::SessionMissing,
    }
}

/// UI-facing connection state for pane headers.
#[derive(Debug, PartialEq, Eq)]
pub struct ConnectionPresentation {
    pub header_label: String,
    pub input_enabled: bool,
}

/// UI-facing close action configuration for a workspace.
#[derive(Debug, PartialEq, Eq)]
pub struct WorkspaceActionPresentation {
    pub title: String,
    pub body: String,
    pub close_label: String,
}

/// The body text of the close dialog.
pub open spec fn close_body(policy: Option<WorkspacePolicy>, runtime_attached: bool, pane_count: nat) -> Seq<char> {
    let summary = if pane_count > 1 {
        "This workspace has "@ + dec(pane_count) + " panes. "@
    } else {
        Seq::empty()
    };
    match policy {
        Some(_) => if runtime_attached {
            summary + "Closing this workspace will stop its runtime and all running processes."@
        } else {
            summary + "This workspace is not connected to a runtime. Closing it removes its local metadata."@
        },
        None => if pane_count > 1 {
            "This workspace has "@ + dec(pane_count) + " panes. All panes and their running processes will be closed."@
        } else {
            "This workspace will be closed."@
        },
    }
}

/// Render workspace close semantics into user-facing copy.
pub fn present_workspace_actions(policy: Option<WorkspacePolicy>, runtime_attached: bool, pane_count: usize) -> (p: WorkspaceActionPresentation)
    ensures
        p.title@ == "Close Workspace?"@,
        p.close_label@ == "Close Workspace"@,
        p.body@ == close_body(policy, runtime_attached, pane_count as nat),
{
    let mut summary = String::new();
    if pane_count > 1 {
        summary.append("This workspace has ");
        push_decimal(&mut summary, pane_count as u64);
        summary.append(" panes. ");
    }
    let body = match policy {
        Some(_) => {
            let mut b = summary;
            if runtime_attached {
                b.append("Closing this workspace will stop its runtime and all running processes.");
            } else {
                b.append("This workspace is not connected to a runtime. Closing it removes its local metadata.");
            }
            b
        },
        None => {
            if pane_count > 1 {
                let mut b = owned("This workspace has ");
                push_decimal(&mut b, pane_count as u64);
                b.append(" panes. All panes and their running processes will be closed.");
                b
            } else {
                owned("This workspace will be closed.")
            }
        },
    };
    proof {
        reveal_strlit("");
    }
    WorkspaceActionPresentation { title: owned("Close Workspace?"), body, close_label: owned("Close Workspace") }
}

/// Which actions to show in the workspace context menu.
#[derive(Debug, Clone, PartialEq, Eq)]
pub struct WorkspaceMenuItems {
    pub show_edit_connection: bool,
    pub show_reconnect: bool,
    pub show_reconnect_host: bool,
    pub show_restart_daemon: bool,
    pub show_detach: bool,
}

/// Input state for determining workspace menu items.
#[derive(Debug, Clone)]
pub struct WorkspaceMenuContext {
    pub is_remote: bool,
    pub is_managed: bool,
    pub is_persistent: bool,
    pub is_attached: bool,
    pub is_disconnected: bool,
    pub is_connecting: bool,
    pub is_daemon_died: bool,
    pub has_other_disconnected_from_same_host: bool,
}

/// Determine which context menu items are relevant for a workspace.
pub fn workspace_menu_items(ctx: &WorkspaceMenuContext) -> (m: WorkspaceMenuItems)
    ensures
        m.show_edit_connection == ctx.is_remote,
        m.show_reconnect == (ctx.is_managed && (ctx.is_disconnected || ctx.is_connecting)),
        m.show_reconnect_host == (ctx.is_managed && ctx.is_disconnected && ctx.has_other_disconnected_from_same_host),
        m.show_restart_daemon == (ctx.is_managed && ctx.is_daemon_died && !ctx.is_remote),
        m.show_detach == (ctx.is_persistent && ctx.is_attached),
{
    WorkspaceMenuItems {
        show_edit_connection: ctx.is_remote,
        show_reconnect: ctx.is_managed && (ctx.is_disconnected || ctx.is_connecting),
        show_reconnect_host: ctx.is_managed && ctx.is_disconnected && ctx.has_other_disconnected_from_same_host,
        show_restart_daemon: ctx.is_managed && ctx.is_daemon_died && !ctx.is_remote,
        show_detach: ctx.is_persistent && ctx.is_attached,
    }
}

/// Render a connection state into pane header label and input availability.
pub fn present_connection_status(status: &ConnectionStatus) -> (p: ConnectionPresentation)
    ensures
        p.header_label@ == status_short_label(*status),
        p.input_enabled == status_accepts_input(*status),
{
    ConnectionPresentation { header_label: status.short_label(), input_enabled: status.accepts_input() }
}

/// Icon and CSS class for the sidebar connection status indicator.
#[derive(Debug, Clone, PartialEq, Eq)]
pub struct ConnectionIcon {
    pub icon_name: &'static str,
    pub css_class: &'static str,
    pub tooltip: &'static str,
}

/// The icon name: shape encodes the workspace type.
pub open spec fn icon_shape(endpoint: EndpointView, managed: bool) -> Seq<char> {
    if managed {
        match endpoint {
            EndpointView::Local => "computer-symbolic"@,
            EndpointView::Remote { .. } => "network-server-symbolic"@,
        }
    } else {
        "utilities-terminal-symbolic"@
    }
}

/// The CSS class: color encodes the connection state.
pub open spec fn icon_class(status: ConnectionStatus) -> Seq<char> {
    match status {
        ConnectionStatus::Connected | ConnectionStatus::Recovered => "accent"@,
        ConnectionStatus::Disconnected | ConnectionStatus::Reconnecting { .. } | ConnectionStatus::SessionMissing => "warning"@,
        ConnectionStatus::Blocked(_) => "error"@,
        _ => "dim-label"@,
    }
}

/// The tooltip of the connection indicator.
pub open spec fn icon_tooltip(endpoint: EndpointView, status: ConnectionStatus) -> Seq<char> {
    match status {
        ConnectionStatus::Connected | ConnectionStatus::Recovered => match endpoint {
            EndpointView::Local => "Connected to local runtime"@,
            EndpointView::Remote { .. } => "Connected to remote host"@,
        },
        ConnectionStatus::Disconnected => "Disconnected from runtime"@,
        ConnectionStatus::Reconnecting { .. } => "Reconnecting to runtime…"@,
        ConnectionStatus::SessionMissing => "Session no longer exists on daemon"@,
        ConnectionStatus::Blocked(ConnectionProblem::DaemonDied) => "Daemon stopped — restart to recover"@,
        ConnectionStatus::Blocked(_) => "Connection blocked — retry manually"@,
        _ => "Connecting…"@,
    }
}

/// The connection icon of a workspace row.
///
/// Shape encodes the workspace type (constant for the lifetime of the row);
/// color encodes the connection state.
pub fn connection_icon(endpoint: &RuntimeEndpoint, status: &ConnectionStatus, managed: bool) -> (i: ConnectionIcon)
    ensures
        i.icon_name@ == icon_shape(endpoint@, managed),
        i.css_class@ == icon_class(*status),
        i.tooltip@ == icon_tooltip(endpoint@, *status),
{
    let icon_name = if managed {
        match endpoint {
            RuntimeEndpoint::Local => "computer-symbolic",
            RuntimeEndpoint::Remote { .. } => "network-server-symbolic",
        }
    } else {
        "utilities-terminal-symbolic"
    };
    let (css_class, tooltip) = match status {
        ConnectionStatus::Connected | ConnectionStatus::Recovered => {
            let tooltip = match endpoint {
                RuntimeEndpoint::Local => "Connected to local runtime",
                RuntimeEndpoint::Remote { .. } => "Connected to remote host",
            };
            ("accent", tooltip)
        },
        ConnectionStatus::Disconnected => ("warning", "Disconnected from runtime"),
        ConnectionStatus::Reconnecting { .. } => ("warning", "Reconnecting to runtime…"),
        ConnectionStatus::SessionMissing => ("warning", "Session no longer exists on daemon"),
        ConnectionStatus::Blocked(ConnectionProblem::DaemonDied) => ("error", "Daemon stopped — restart to recover"),
        ConnectionStatus::Blocked(_) => ("error", "Connection blocked — retry manually"),
        _ => ("dim-label", "Connecting…"),
    };
    ConnectionIcon { icon_name, css_class, tooltip }
}

/// The workspace row subtitle.
pub open spec fn summary_spec(endpoint: EndpointView, info: Option<Seq<char>>) -> Seq<char> {
    let pane = match info {
        Some(i) => i,
        None => Seq::empty(),
    };
    match endpoint {
        EndpointView::Local => pane,
        EndpointView::Remote { host } => if pane.len() == 0 {
            host
        } else {
            host + " · "@ + pane
        },
    }
}

/// Build a structured subtitle for a workspace row: local rows show the pane
/// info, remote rows `host · pane-info`.
pub fn workspace_connection_summary(endpoint: &RuntimeEndpoint, active_pane_info: Option<&str>) -> (s: String)
    ensures
        s@ == summary_spec(endpoint@, match active_pane_info {
            Some(i) => Some(i@),
            None => None,
        }),
{
    let pane_part = match active_pane_info {
        Some(i) => i,
        None => "",
    };
    proof {
        reveal_strlit("");
    }
    match endpoint {
        RuntimeEndpoint::Local => owned(pane_part),
        RuntimeEndpoint::Remote { host } => {
            if pane_part.unicode_len() == 0 {
                host.clone()
            } else {
                let mut s = host.clone();
                s.append(" · ");
                s.append(pane_part);
                s
            }
        },
    }
}

/// `path` with a leading home directory shown as `~`.
pub open spec fn collapse_home(path: Seq<char>, home: Option<Seq<char>>) -> Seq<char> {
    match home {
        Some(h) => if h.len() <= path.len() && path.take(h.len() as int) == h {
            let rest = path.skip(h.len() as int);
            if rest.len() == 0 {
                seq!['~']
            } else if rest[0] == '/' {
                seq!['~'] + rest
            } else {
                path
            }
        } else {
            path
        },
        None => path,
    }
}

/// Titles that carry no information: anything mentioning "terminal" and
/// bare shell names (compared case-insensitively).
pub open spec fn is_generic_title(t: Seq<char>) -> bool {
    is_generic_lowercase_title(unicode_lowercase(t))
}

/// A lower-cased title that carries no information.
pub open spec fn is_generic_lowercase_title(l: Seq<char>) -> bool {
    contains(l, "terminal"@) || l == "bash"@ || l == "zsh"@ || l == "sh"@ || l == "fish"@
}

/// The pane description shown in the sidebar.
pub open spec fn pane_description_spec(title: Option<Seq<char>>, cwd: Option<Seq<char>>, home: Option<Seq<char>>) -> Option<Seq<char>> {
    let path = match cwd {
        Some(c) => collapse_home(trim(c), home),
        None => Seq::empty(),
    };
    if path.len() > 0 {
        Some(path)
    } else {
        match title {
            Some(t) => if trim(t).len() > 0 && !is_generic_title(trim(t)) {
                Some(trim(t))
            } else {
                None
            },
            None => None,
        }
    }
}

fn collapse_home_exec(path: &str, home: Option<&str>) -> (s: String)
    ensures
        s@ == collapse_home(path@, match home {
            Some(h) => Some(h@),
            None => None,
        }),
{
    match home {
        None => owned(path),
        Some(h) => {
            let hn = h.unicode_len();
            let pn = path.unicode_len();
            if hn <= pn {
                let prefix = path.substring_char(0, hn);
                if str_eq(prefix, h) {
                    let rest = path.substring_char(hn, pn);
                    proof {
                        reveal_strlit("~");
                        assert(path@.take(hn as int) =~= prefix@);
                        assert(path@.skip(hn as int) =~= rest@);
                    }
                    let rn = rest.unicode_len();
                    if rn == 0 {
                        return owned("~");
                    }
                    if rest.get_char(0) == '/' {
                        let mut s = owned("~");
                        s.append(rest);
                        return s;
                    }
                }
            }
            owned(path)
        },
    }
}

/// Whether an already lower-cased title carries no information: it
/// mentions "terminal" or is a bare shell name.
pub fn generic_lowercase_title(l: &str) -> (b: bool)
    ensures
        b == is_generic_lowercase_title(l@),
{
    let c = chars_of(l);
    let word = chars_of("terminal");
    contains_chars(c.as_slice(), word.as_slice()) || str_eq(l, "bash") || str_eq(l, "zsh") || str_eq(l, "sh")
        || str_eq(l, "fish")
}

fn is_generic_title_exec(t: &str) -> (b: bool)
    ensures
        b == is_generic_title(t@),
{
    let l = to_lowercase(t);
    generic_lowercase_title(l.as_str())
}

/// A pane description for the sidebar subtitle: the working directory
/// (home shown as `~`), or else the terminal title when it is informative.
///
/// `home` is the user's home directory, which the caller reads from the
/// environment.
pub fn pane_description(title: Option<&str>, cwd: Option<&str>, home: Option<&str>) -> (r: Option<String>)
    ensures
        opt_view(r) == pane_description_spec(match title {
            Some(t) => Some(t@),
            None => None,
        }, match cwd {
            Some(c) => Some(c@),
            None => None,
        }, match home {
            Some(h) => Some(h@),
            None => None,
        }),
{
    let path = match cwd {
        Some(c) => collapse_home_exec(trimmed(c), home),
        None => String::new(),
    };
    if path.unicode_len() > 0 {
        return Some(path);
    }
    match title {
        Some(t) => {
            let tt = trimmed(t);
            if tt.unicode_len() > 0 && !is_generic_title_exec(tt) {
                Some(owned(tt))
            } else {
                None
            }
        },
        None => None,
    }
}

/// Deterministic, non-destructive binding reconciliation result.
#[derive(Debug)]
pub struct BindingReconciliation {
    /// Valid layout -> runtime bindings after reconciliation.
    pub bindings: StrMap<String>,
    /// Runtime panes that still need recovered GUI panes.
    pub recovered_runtime_panes: Vec<String>,
    /// Layout panes that have no live runtime pane.
    pub disconnected_layout_panes: Vec<String>,
}

/// One layout terminal considered by the reconciliation: its persisted
/// binding if that pane is live and unclaimed, else an exact same-id match.
pub open spec fn reconcile_step(
    acc: (Map<Seq<char>, Seq<char>>, Set<Seq<char>>),
    u: Seq<char>,
    persisted: Map<Seq<char>, Seq<char>>,
    live: Set<Seq<char>>,
) -> (Map<Seq<char>, Seq<char>>, Set<Seq<char>>) {
    let (b, claimed) = acc;
    if persisted.contains_key(u) && live.contains(persisted[u]) && !claimed.contains(persisted[u]) {
        (b.insert(u, persisted[u]), claimed.insert(persisted[u]))
    } else if live.contains(u) && !claimed.contains(u) {
        (b.insert(u, u), claimed.insert(u))
    } else {
        acc
    }
}

/// Bindings and claimed runtime panes after considering `layout` in order.
pub open spec fn reconcile_fold(
    layout: Seq<Seq<char>>,
    persisted: Map<Seq<char>, Seq<char>>,
    live: Set<Seq<char>>,
) -> (Map<Seq<char>, Seq<char>>, Set<Seq<char>>)
    decreases layout.len(),
{
    if layout.len() == 0 {
        (Map::empty(), Set::empty())
    } else {
        reconcile_step(reconcile_fold(layout.drop_last(), persisted, live), layout.last(), persisted, live)
    }
}

/// Reconcile persisted bindings against the live runtime pane inventory.
///
/// This never infers bindings by position: a layout pane keeps its persisted
/// binding when that runtime pane is live and not yet claimed, and otherwise
/// binds only to a live runtime pane with exactly its own id. Recovered and
/// disconnected panes are listed in ascending order.
pub fn reconcile_bindings(
    layout_terminal_uuids: &[String],
    persisted_bindings: &StrMap<String>,
    runtime_pane_uuids: &[String],
) -> (r: BindingReconciliation)
    ensures
        ({
            let (b, claimed) = reconcile_fold(
                strs_view(layout_terminal_uuids@),
                values_view(persisted_bindings@),
                strs_view(runtime_pane_uuids@).to_set(),
            );
            &&& values_view(r.bindings@) == b
            &&& strictly_sorted(strs_view(r.recovered_runtime_panes@))
            &&& strs_view(r.recovered_runtime_panes@).to_set() == strs_view(runtime_pane_uuids@).to_set().difference(claimed)
            &&& strictly_sorted(strs_view(r.disconnected_layout_panes@))
            &&& strs_view(r.disconnected_layout_panes@).to_set() == strs_view(layout_terminal_uuids@).to_set().difference(b.dom())
        }),
{
    let ghost lv = strs_view(layout_terminal_uuids@);
    let ghost pv = values_view(persisted_bindings@);
    let mut runtime_set = StrSet::new();
    let mut k: usize = 0;
    while k < runtime_pane_uuids.len()
        invariant
            k <= runtime_pane_uuids.len(),
            runtime_set@.dom() == strs_view(runtime_pane_uuids@).take(k as int).to_set(),
        decreases runtime_pane_uuids.len() - k,
    {
        runtime_set.insert_key(runtime_pane_uuids[k].clone());
        proof {
            let t = strs_view(runtime_pane_uuids@);
            assert(t.take(k + 1) =~= t.take(k as int).push(t[k as int]));
            lemma_take_to_set(t, k as int);
        }
        k = k + 1;
    }
    assert(strs_view(runtime_pane_uuids@).take(runtime_pane_uuids@.len() as int) =~= strs_view(runtime_pane_uuids@));
    let ghost live = runtime_set@.dom();
    let mut bindings: StrMap<String> = StrMap::new();
    let mut claimed = StrSet::new();
    let mut layout_set = StrSet::new();
    let mut i: usize = 0;
    while i < layout_terminal_uuids.len()
        invariant
            i <= layout_terminal_uuids.len(),
            lv == strs_view(layout_terminal_uuids@),
            pv == values_view(persisted_bindings@),
            live == runtime_set@.dom(),
            live == strs_view(runtime_pane_uuids@).to_set(),
            (values_view(bindings@), claimed@.dom()) == reconcile_fold(lv.take(i as int), pv, live),
            layout_set@.dom() == lv.take(i as int).to_set(),
        decreases layout_terminal_uuids.len() - i,
    {
        let u = &layout_terminal_uuids[i];
        let ghost t0 = lv.take(i as int);
        let ghost t1 = lv.take(i + 1);
        proof {
            assert(t1.drop_last() =~= t0);
            assert(t1.last() == u@);
        }
        let ghost before = (values_view(bindings@), claimed@.dom());
        layout_set.insert_key(u.clone());
        let mut done = false;
        match persisted_bindings.get(u.as_str()) {
            Some(rt) => {
                if runtime_set.contains(rt.as_str()) && !claimed.contains(rt.as_str()) {
                    claimed.insert_key(rt.clone());
                    bindings.insert(u.clone(), rt.clone());
                    done = true;
                }
            },
            None => {},
        }
        if !done {
            if runtime_set.contains(u.as_str()) && !claimed.contains(u.as_str()) {
                claimed.insert_key(u.clone());
                bindings.insert(u.clone(), u.clone());
            }
        }
        proof {
            let after = reconcile_step(before, u@, pv, live);
            assert(values_view(bindings@) =~= after.0);
            assert(claimed@.dom() =~= after.1);
            lemma_take_to_set(lv, i as int);
            assert(layout_set@.dom() =~= t1.to_set());
        }
        i = i + 1;
    }
    assert(lv.take(layout_terminal_uuids@.len() as int) =~= lv);
    let ghost fold = reconcile_fold(lv, pv, live);
    // Live runtime panes nobody claimed, in key order.
    let runtime_keys = runtime_set.key_list();
    let ghost rk = strs_view(runtime_keys@);
    let ghost unclaimed = |x: Seq<char>| !fold.1.contains(x);
    let mut recovered: Vec<String> = Vec::new();
    let mut j: usize = 0;
    while j < runtime_keys.len()
        invariant
            j <= runtime_keys.len(),
            rk == strs_view(runtime_keys@),
            claimed@.dom() == fold.1,
            unclaimed == (|x: Seq<char>| !fold.1.contains(x)),
            strs_view(recovered@) == keep(rk.take(j as int), unclaimed),
        decreases runtime_keys.len() - j,
    {
        let c = claimed.contains(runtime_keys[j].as_str());
        let ghost before = recovered@;
        if !c {
            recovered.push(runtime_keys[j].clone());
            assert(strs_view(recovered@) =~= strs_view(before).push(rk[j as int]));
        }
        proof {
            lemma_keep_take(rk, unclaimed, j as int);
        }
        j = j + 1;
    }
    assert(rk.take(runtime_keys@.len() as int) =~= rk);
    proof {
        lemma_keep_sorted(rk, unclaimed);
        assert forall|x: Seq<char>| strs_view(recovered@).to_set().contains(x) == live.difference(fold.1).contains(x) by {
            lemma_keep_contains(rk, unclaimed, x);
            assert(rk.to_set().contains(x) == rk.contains(x));
        }
        assert(strs_view(recovered@).to_set() =~= live.difference(fold.1));
    }
    // Listed layout panes without a binding, in key order.
    let layout_keys = layout_set.key_list();
    let ghost lk = strs_view(layout_keys@);
    let ghost unbound = |x: Seq<char>| !fold.0.contains_key(x);
    let mut disconnected: Vec<String> = Vec::new();
    let mut m: usize = 0;
    while m < layout_keys.len()
        invariant
            m <= layout_keys.len(),
            lk == strs_view(layout_keys@),
            values_view(bindings@) == fold.0,
            unbound == (|x: Seq<char>| !fold.0.contains_key(x)),
            strs_view(disconnected@) == keep(lk.take(m as int), unbound),
        decreases layout_keys.len() - m,
    {
        let b = bindings.contains_key(layout_keys[m].as_str());
        let ghost before = disconnected@;
        if !b {
            disconnected.push(layout_keys[m].clone());
            assert(strs_view(disconnected@) =~= strs_view(before).push(lk[m as int]));
        }
        proof {
            lemma_keep_take(lk, unbound, m as int);
        }
        m = m + 1;
    }
    assert(lk.take(layout_keys@.len() as int) =~= lk);
    proof {
        lemma_keep_sorted(lk, unbound);
        assert forall|x: Seq<char>| strs_view(disconnected@).to_set().contains(x) == lv.to_set().difference(fold.0.dom()).contains(x) by {
            lemma_keep_contains(lk, unbound, x);
            assert(lk.to_set().contains(x) == lk.contains(x));
        }
        assert(strs_view(disconnected@).to_set() =~= lv.to_set().difference(fold.0.dom()));
    }
    BindingReconciliation { bindings, recovered_runtime_panes: recovered, disconnected_layout_panes: disconnected }
}

/// Reconciliation binds layout panes only to live runtime panes that it
/// claimed, never binds two layout panes to the same runtime pane, and
/// binds only panes of the layout.
pub proof fn law_reconcile_bindings_injective_into_live(
    layout: Seq<Seq<char>>,
    persisted: Map<Seq<char>, Seq<char>>,
    live: Set<Seq<char>>,
)
    ensures
        ({
            let (b, claimed) = reconcile_fold(layout, persisted, live);
            &&& claimed.subset_of(live)
            &&& forall|u: Seq<char>| #[trigger] b.dom().contains(u) ==> claimed.contains(b[u]) && live.contains(b[u])
            &&& forall|u1: Seq<char>, u2: Seq<char>|
                #![trigger b.dom().contains(u1), b.dom().contains(u2)]
                b.dom().contains(u1) && b.dom().contains(u2) && u1 != u2 ==> b[u1] != b[u2]
            &&& forall|u: Seq<char>| #[trigger] b.dom().contains(u) ==> layout.contains(u)
        }),
    decreases layout.len(),
{
    if layout.len() > 0 {
        let rest = layout.drop_last();
        law_reconcile_bindings_injective_into_live(rest, persisted, live);
        let (b0, c0) = reconcile_fold(rest, persisted, live);
        let u = layout.last();
        let (b, claimed) = reconcile_fold(layout, persisted, live);
        assert forall|w: Seq<char>| #[trigger] b.dom().contains(w) implies layout.contains(w) by {
            if w != u {
                assert(b0.dom().contains(w));
                assert(rest.contains(w));
                let k = choose|k: int| 0 <= k < rest.len() && rest[k] == w;
                assert(layout[k] == w);
            } else {
                assert(layout[layout.len() - 1] == w);
            }
        }
    }
}

/// Placeholder bindings cover exactly the listed layout panes, keeping
/// every binding a listed pane already had.
pub proof fn law_placeholders_cover_layout(old: Map<Seq<char>, Seq<char>>, layout: Set<Seq<char>>)
    ensures
        placeholder_bindings(old, layout).dom() == layout,
        forall|k: Seq<char>|
            #[trigger] layout.contains(k) && old.contains_key(k) ==> placeholder_bindings(old, layout)[k] == old[k],
        forall|k: Seq<char>|
            #[trigger] layout.contains(k) && !old.contains_key(k) ==> placeholder_bindings(old, layout)[k] == k,
{
    assert(placeholder_bindings(old, layout).dom() =~= layout);
}

/// A remote endpoint's host key is the key of the saved host for the same
/// ssh target.
pub proof fn law_remote_endpoint_key_matches_saved_host(host: Seq<char>)
    ensures
        endpoint_host_key(EndpointView::Remote { host }) == normalize_key(host),
{
}

/// A working directory under the home directory is shown with the home
/// part written `~`: `home/rest` as `~/rest`, and `home` itself as `~`,
/// whatever the title.
pub proof fn law_cwd_under_home_is_collapsed(title: Option<Seq<char>>, home: Seq<char>, rest: Seq<char>)
    requires
        home.len() > 0,
        !crate::text::is_ws(home[0]),
        rest.len() == 0 || !crate::text::is_ws(rest.last()),
    ensures
        pane_description_spec(title, Some(home + seq!['/'] + rest), Some(home)) == Some(seq!['~', '/'] + rest),
        !crate::text::is_ws(home.last()) ==> pane_description_spec(title, Some(home), Some(home)) == Some(seq!['~']),
{
    let cwd = home + seq!['/'] + rest;
    assert(cwd[0] == home[0]);
    if rest.len() == 0 {
        assert(cwd.last() == '/');
    } else {
        assert(cwd.last() == rest.last());
    }
    assert(crate::text::trim_start(cwd) == cwd);
    assert(trim(cwd) == cwd);
    assert(cwd.take(home.len() as int) =~= home);
    assert(cwd.skip(home.len() as int) =~= seq!['/'] + rest);
    assert(seq!['~'] + (seq!['/'] + rest) =~= seq!['~', '/'] + rest);
    if !crate::text::is_ws(home.last()) {
        assert(crate::text::trim_start(home) == home);
        assert(trim(home) == home);
        assert(home.take(home.len() as int) =~= home);
        assert(home.skip(home.len() as int).len() == 0);
    }
}

} // verus!
