//! Persisted session and window state.
//!
//! `SessionState` and `WindowState` are what the session store keeps; the
//! runtime metadata of a session and its legacy `mode` are kept in step.

use vstd::prelude::*;

use super::layout::{lemma_count_is_uuid_len, lemma_count_positive, lemma_has_uuids, LayoutNode, LayoutView};
use super::recovery::{PaneRecovery, PaneSource};
use crate::ids::{is_hyphenated_uuid, new_uuid};
use crate::runtime::{
    placeholder_bindings, placeholder_pending, rename_key, rename_member, values_view, EndpointView,
    RuntimeEndpoint, WorkspacePolicy, WorkspaceRuntime,
};
use crate::str_map::StrMap;
use crate::text::{opt_view, owned, str_eq, strs_view};

verus! {

/// How a session's terminals are backed.
#[derive(Debug, PartialEq, Eq)]
pub enum SessionMode {
    Direct,
    Persistent { daemon_session_id: String },
    RemotePersistent { host: String, daemon_session_id: String },
}

/// Mathematical model of a [`SessionMode`].
pub enum SessionModeView {
    Direct,
    Persistent { daemon_session_id: Seq<char> },
    RemotePersistent { host: Seq<char>, daemon_session_id: Seq<char> },
}

impl View for SessionMode {
    type V = SessionModeView;

    open spec fn view(&self) -> SessionModeView {
        match self {
            SessionMode::Direct => SessionModeView::Direct,
            SessionMode::Persistent { daemon_session_id } => SessionModeView::Persistent {
                daemon_session_id: daemon_session_id@,
            },
            SessionMode::RemotePersistent { host, daemon_session_id } => SessionModeView::RemotePersistent {
                host: host@,
                daemon_session_id: daemon_session_id@,
            },
        }
    }
}

impl Clone for SessionMode {
    fn clone(&self) -> (r: Self)
        ensures
            r == *self,
    {
        match self {
            SessionMode::Direct => SessionMode::Direct,
            SessionMode::Persistent { daemon_session_id } => SessionMode::Persistent {
                daemon_session_id: daemon_session_id.clone(),
            },
            SessionMode::RemotePersistent { host, daemon_session_id } => SessionMode::RemotePersistent {
                host: host.clone(),
                daemon_session_id: daemon_session_id.clone(),
            },
        }
    }
}

impl Default for SessionMode {
    fn default() -> (m: Self)
        ensures
            m == SessionMode::Direct,
    {
        SessionMode::Direct
    }
}

impl SessionMode {
    /// Whether the session is daemon-backed.
    pub fn is_persistent(&self) -> (b: bool)
        ensures
            b == !(self@ is Direct),
    {
        !matches!(self, SessionMode::Direct)
    }

    /// The daemon session id, when daemon-backed.
    pub fn daemon_session_id(&self) -> (r: Option<&str>)
        ensures
            match self@ {
                SessionModeView::Direct => r is None,
                SessionModeView::Persistent { daemon_session_id } => r matches Some(s) && s@ == daemon_session_id,
                SessionModeView::RemotePersistent { daemon_session_id, .. } => r matches Some(s) && s@
                    == daemon_session_id,
            },
    {
        match self {
            SessionMode::Direct => None,
            SessionMode::Persistent { daemon_session_id } => Some(daemon_session_id.as_str()),
            SessionMode::RemotePersistent { daemon_session_id, .. } => Some(daemon_session_id.as_str()),
        }
    }

    /// The remote host, for a remote daemon-backed session.
    pub fn host(&self) -> (r: Option<&str>)
        ensures
            match self@ {
                SessionModeView::RemotePersistent { host, .. } => r matches Some(s) && s@ == host,
                _ => r is None,
            },
    {
        match self {
            SessionMode::RemotePersistent { host, .. } => Some(host.as_str()),
            _ => None,
        }
    }
}

/// The legacy mode that mirrors runtime metadata.
pub open spec fn legacy_mode(managed: bool, endpoint: EndpointView, runtime_id: Option<Seq<char>>) -> SessionModeView {
    if managed {
        let id = match runtime_id {
            Some(r) => r,
            None => Seq::empty(),
        };
        match endpoint {
            EndpointView::Local => SessionModeView::Persistent { daemon_session_id: id },
            EndpointView::Remote { host } => SessionModeView::RemotePersistent { host, daemon_session_id: id },
        }
    } else {
        SessionModeView::Direct
    }
}

/// Runtime `(managed, endpoint, policy, runtime id)` after adopting a
/// legacy daemon-backed mode into metadata that is not managed yet.
pub open spec fn adopted_runtime(
    managed: bool,
    endpoint: EndpointView,
    policy: WorkspacePolicy,
    runtime_id: Option<Seq<char>>,
    mode: SessionModeView,
) -> (bool, EndpointView, WorkspacePolicy, Option<Seq<char>>) {
    if managed {
        (managed, endpoint, policy, runtime_id)
    } else {
        match mode {
            SessionModeView::Direct => (managed, endpoint, policy, runtime_id),
            SessionModeView::Persistent { daemon_session_id } => (
                true,
                EndpointView::Local,
                WorkspacePolicy::Persistent,
                if daemon_session_id.len() > 0 {
                    Some(daemon_session_id)
                } else {
                    runtime_id
                },
            ),
            SessionModeView::RemotePersistent { host, daemon_session_id } => (
                true,
                EndpointView::Remote { host },
                WorkspacePolicy::Persistent,
                if daemon_session_id.len() > 0 {
                    Some(daemon_session_id)
                } else {
                    runtime_id
                },
            ),
        }
    }
}

/// The recovery recipe a new terminal starts with.
pub open spec fn is_empty_shell(r: PaneRecovery) -> bool {
    &&& r.source == PaneSource::EmptyShell
    &&& r.target is None
    &&& r.startup@.len() == 0
}

/// The focused terminal after normalization: the current one while it is
/// in the layout, else the layout's first terminal.
pub open spec fn normalized_focus(layout: LayoutView, active: Option<Seq<char>>) -> Option<Seq<char>> {
    match active {
        Some(a) => if layout.has(a) {
            Some(a)
        } else {
            Some(layout.uuids()[0])
        },
        None => Some(layout.uuids()[0]),
    }
}

/// State of a single terminal session.
#[derive(Debug, Clone, PartialEq, Eq)]
pub struct SessionState {
    pub uuid: String,
    pub name: String,
    pub layout: LayoutNode,
    pub terminal_recovery: StrMap<PaneRecovery>,
    pub active_terminal_uuid: Option<String>,
    pub input_sync: bool,
    pub mode: SessionMode,
    pub runtime: WorkspaceRuntime,
}

/// The fields of a fresh session with one terminal whose working directory
/// is `cwd`.
pub open spec fn is_fresh_session(s: SessionState, name: Seq<char>, cwd: Option<Seq<char>>) -> bool {
    let t = s.layout@->uuid;
    &&& is_hyphenated_uuid(s.uuid@)
    &&& s.name@ == name
    &&& s.layout@ == LayoutView::Terminal { uuid: t, profile: None, cwd, custom_title: None }
    &&& is_hyphenated_uuid(t)
    &&& s.terminal_recovery@.dom() == set![t]
    &&& is_empty_shell(s.terminal_recovery@[t])
    &&& opt_view(s.active_terminal_uuid) == Some(t)
    &&& !s.input_sync
}

impl SessionState {
    /// A new direct session with one fresh terminal.
    pub fn new(name: String) -> (s: Self)
        ensures
            is_fresh_session(s, name@, None),
            s.mode == SessionMode::Direct,
            !s.runtime.managed,
            s.runtime.endpoint@ == EndpointView::Local,
            s.runtime.policy == WorkspacePolicy::Persistent,
            s.runtime.runtime_id is None,
            s.runtime.pane_bindings@.dom() == Set::<Seq<char>>::empty(),
            s.runtime.pending_layout_panes@.dom() == Set::<Seq<char>>::empty(),
    {
        Self::new_with_initial_cwd(name, None)
    }

    /// A new direct session with one fresh terminal starting in
    /// `initial_cwd`.
    pub fn new_with_initial_cwd(name: String, initial_cwd: Option<String>) -> (s: Self)
        ensures
            is_fresh_session(s, name@, opt_view(initial_cwd)),
            s.mode == SessionMode::Direct,
            !s.runtime.managed,
            s.runtime.endpoint@ == EndpointView::Local,
            s.runtime.policy == WorkspacePolicy::Persistent,
            s.runtime.runtime_id is None,
            s.runtime.pane_bindings@.dom() == Set::<Seq<char>>::empty(),
            s.runtime.pending_layout_panes@.dom() == Set::<Seq<char>>::empty(),
    {
        let terminal_uuid = new_uuid();
        let layout = LayoutNode::Terminal {
            uuid: terminal_uuid.clone(),
            profile: None,
            cwd: initial_cwd,
            custom_title: None,
        };
        let mut terminal_recovery: StrMap<PaneRecovery> = StrMap::new();
        terminal_recovery.insert(terminal_uuid.clone(), PaneRecovery::empty_shell());
        assert(terminal_recovery@.dom() =~= set![terminal_uuid@]);
        let runtime = WorkspaceRuntime::default();
        SessionState {
            uuid: new_uuid(),
            name,
            layout,
            terminal_recovery,
            active_terminal_uuid: Some(terminal_uuid),
            input_sync: false,
            mode: SessionMode::default(),
            runtime,
        }
    }

    /// A new session backed by a local managed runtime.
    pub fn new_managed_local(name: String, policy: WorkspacePolicy, initial_cwd: Option<String>) -> (s: Self)
        ensures
            is_fresh_session(s, name@, opt_view(initial_cwd)),
            s.runtime.managed,
            s.runtime.endpoint@ == EndpointView::Local,
            s.runtime.policy == policy,
            s.runtime.runtime_id is None,
            values_view(s.runtime.pane_bindings@) == (map![s.layout@->uuid => s.layout@->uuid]),
            s.runtime.pending_layout_panes@.dom() == set![s.layout@->uuid],
            s.mode@ == (SessionModeView::Persistent { daemon_session_id: Seq::empty() }),
    {
        let mut session = Self::new_with_initial_cwd(name, initial_cwd);
        let layout_terminal_uuids = session.layout.terminal_uuids();
        let ghost t = session.layout@->uuid;
        assert(strs_view(layout_terminal_uuids@).to_set() =~= set![t]) by {
            assert(strs_view(layout_terminal_uuids@) == seq![t]);
            assert(seq![t].to_set() =~= set![t]) by {
                assert(seq![t][0] == t);
            }
        }
        session.runtime = WorkspaceRuntime::managed_local(policy, layout_terminal_uuids.as_slice());
        assert(placeholder_bindings(Map::empty(), set![t]) =~= map![t => t]);
        session.sync_legacy_mode_from_runtime();
        session
    }

    /// Whether the session goes through the daemon.
    pub fn uses_managed_runtime(&self) -> (b: bool)
        ensures
            b == (self.runtime.managed || !(self.mode@ is Direct)),
    {
        self.runtime.is_managed() || self.mode.is_persistent()
    }

    /// Adopt a legacy daemon-backed mode into runtime metadata, give every
    /// layout terminal a binding, and mirror the result back into `mode`.
    pub fn normalize_runtime_metadata(&mut self)
        ensures
            ({
                let a = adopted_runtime(
                    old(self).runtime.managed,
                    old(self).runtime.endpoint@,
                    old(self).runtime.policy,
                    opt_view(old(self).runtime.runtime_id),
                    old(self).mode@,
                );
                let layout = old(self).layout@.uuids().to_set();
                &&& final(self).runtime.managed == a.0
                &&& final(self).runtime.endpoint@ == a.1
                &&& final(self).runtime.policy == a.2
                &&& opt_view(final(self).runtime.runtime_id) == a.3
                &&& values_view(final(self).runtime.pane_bindings@) == placeholder_bindings(
                    values_view(old(self).runtime.pane_bindings@),
                    layout,
                )
                &&& final(self).runtime.pending_layout_panes@.dom() == placeholder_pending(
                    old(self).runtime.pending_layout_panes@.dom(),
                    old(self).runtime.pane_bindings@.dom(),
                    layout,
                )
                &&& final(self).mode@ == legacy_mode(a.0, a.1, a.3)
            }),
            final(self).uuid == old(self).uuid,
            final(self).name == old(self).name,
            final(self).layout == old(self).layout,
            final(self).terminal_recovery == old(self).terminal_recovery,
            final(self).active_terminal_uuid == old(self).active_terminal_uuid,
            final(self).input_sync == old(self).input_sync,
    {
        if !self.runtime.is_managed() {
            match &self.mode {
                SessionMode::Direct => {},
                SessionMode::Persistent { daemon_session_id } => {
                    self.runtime.managed = true;
                    self.runtime.endpoint = RuntimeEndpoint::Local;
                    self.runtime.policy = WorkspacePolicy::Persistent;
                    if daemon_session_id.unicode_len() > 0 {
                        self.runtime.runtime_id = Some(daemon_session_id.clone());
                    }
                },
                SessionMode::RemotePersistent { host, daemon_session_id } => {
                    self.runtime.managed = true;
                    self.runtime.endpoint = RuntimeEndpoint::Remote { host: host.clone() };
                    self.runtime.policy = WorkspacePolicy::Persistent;
                    if daemon_session_id.unicode_len() > 0 {
                        self.runtime.runtime_id = Some(daemon_session_id.clone());
                    }
                },
            }
        }
        let uuids = self.layout.terminal_uuids();
        self.runtime.ensure_placeholder_bindings(uuids.as_slice());
        self.sync_legacy_mode_from_runtime();
    }

    /// Rewrite `mode` from the runtime metadata.
    pub fn sync_legacy_mode_from_runtime(&mut self)
        ensures
            final(self).mode@ == legacy_mode(
                old(self).runtime.managed,
                old(self).runtime.endpoint@,
                opt_view(old(self).runtime.runtime_id),
            ),
            final(self).uuid == old(self).uuid,
            final(self).name == old(self).name,
            final(self).layout == old(self).layout,
            final(self).terminal_recovery == old(self).terminal_recovery,
            final(self).active_terminal_uuid == old(self).active_terminal_uuid,
            final(self).input_sync == old(self).input_sync,
            final(self).runtime == old(self).runtime,
    {
        let mode = if self.runtime.is_managed() {
            let daemon_session_id = match &self.runtime.runtime_id {
                Some(r) => r.clone(),
                None => String::new(),
            };
            match &self.runtime.endpoint {
                RuntimeEndpoint::Local => SessionMode::Persistent { daemon_session_id },
                RuntimeEndpoint::Remote { host } => SessionMode::RemotePersistent {
                    host: host.clone(),
                    daemon_session_id,
                },
            }
        } else {
            SessionMode::Direct
        };
        self.mode = mode;
    }

    /// Remember how terminal `terminal_uuid` is to be recovered.
    pub fn set_recovery(&mut self, terminal_uuid: &str, recovery: PaneRecovery)
        ensures
            final(self).terminal_recovery@ == old(self).terminal_recovery@.insert(terminal_uuid@, recovery),
            final(self).uuid == old(self).uuid,
            final(self).name == old(self).name,
            final(self).layout == old(self).layout,
            final(self).active_terminal_uuid == old(self).active_terminal_uuid,
            final(self).input_sync == old(self).input_sync,
            final(self).mode == old(self).mode,
            final(self).runtime == old(self).runtime,
    {
        self.terminal_recovery.insert(owned(terminal_uuid), recovery);
    }

    /// The recovery recipe of terminal `terminal_uuid`, if any.
    pub fn recovery_for(&self, terminal_uuid: &str) -> (r: Option<&PaneRecovery>)
        ensures
            r is Some == self.terminal_recovery@.dom().contains(terminal_uuid@),
            r matches Some(v) ==> *v == self.terminal_recovery@[terminal_uuid@],
    {
        self.terminal_recovery.get(terminal_uuid)
    }

    /// Forget the recovery recipes of terminals no longer in the layout.
    pub fn prune_recovery(&mut self)
        ensures
            final(self).terminal_recovery@ == old(self).terminal_recovery@.restrict(old(self).layout@.uuids().to_set()),
            final(self).uuid == old(self).uuid,
            final(self).name == old(self).name,
            final(self).layout == old(self).layout,
            final(self).active_terminal_uuid == old(self).active_terminal_uuid,
            final(self).input_sync == old(self).input_sync,
            final(self).mode == old(self).mode,
            final(self).runtime == old(self).runtime,
    {
        let valid_uuids = self.layout.terminal_uuids();
        self.terminal_recovery.retain_keys(valid_uuids.as_slice());
    }

    /// Keep the active terminal if it is still in the layout, else make the
    /// first terminal active.
    pub fn normalize_active_terminal(&mut self)
        ensures
            opt_view(final(self).active_terminal_uuid) == normalized_focus(
                old(self).layout@,
                opt_view(old(self).active_terminal_uuid),
            ),
            final(self).uuid == old(self).uuid,
            final(self).name == old(self).name,
            final(self).layout == old(self).layout,
            final(self).terminal_recovery == old(self).terminal_recovery,
            final(self).input_sync == old(self).input_sync,
            final(self).mode == old(self).mode,
            final(self).runtime == old(self).runtime,
    {
        let keep = match &self.active_terminal_uuid {
            Some(a) => self.layout.contains_terminal(a.as_str()),
            None => false,
        };
        if keep {
            return;
        }
        let uuids = self.layout.terminal_uuids();
        proof {
            lemma_count_is_uuid_len(self.layout@);
            lemma_count_positive(self.layout@);
        }
        self.active_terminal_uuid = Some(uuids[0].clone());
    }

    /// Rename terminal `old_uuid` to `new_uuid` in the layout, the recovery
    /// recipes, the runtime bindings and the focus; whether it was renamed.
    pub fn replace_terminal_uuid(&mut self, old_uuid: &str, new_uuid: &str) -> (b: bool)
        ensures
            b == (old_uuid@ != new_uuid@ && old(self).layout@.has(old_uuid@)),
            !b ==> *final(self) == *old(self),
            b ==> {
                &&& final(self).layout@ == old(self).layout@.renamed(old_uuid@, new_uuid@).0
                &&& final(self).terminal_recovery@ == rename_key(old(self).terminal_recovery@, old_uuid@, new_uuid@)
                &&& values_view(final(self).runtime.pane_bindings@) == rename_key(
                    values_view(old(self).runtime.pane_bindings@),
                    old_uuid@,
                    new_uuid@,
                )
                &&& final(self).runtime.pending_layout_panes@.dom() == rename_member(
                    old(self).runtime.pending_layout_panes@.dom(),
                    old_uuid@,
                    new_uuid@,
                )
                &&& final(self).runtime.managed == old(self).runtime.managed
                &&& final(self).runtime.endpoint == old(self).runtime.endpoint
                &&& final(self).runtime.policy == old(self).runtime.policy
                &&& final(self).runtime.runtime_id == old(self).runtime.runtime_id
                &&& opt_view(final(self).active_terminal_uuid) == if opt_view(old(self).active_terminal_uuid)
                    == Some(old_uuid@) {
                    Some(new_uuid@)
                } else {
                    opt_view(old(self).active_terminal_uuid)
                }
                &&& final(self).uuid == old(self).uuid
                &&& final(self).name == old(self).name
                &&& final(self).input_sync == old(self).input_sync
                &&& final(self).mode == old(self).mode
            },
    {
        if str_eq(old_uuid, new_uuid) || !self.layout.contains_terminal(old_uuid) {
            return false;
        }
        self.layout.replace_terminal_uuid(old_uuid, new_uuid);
        let ghost r0 = self.terminal_recovery@;
        if let Some(recovery) = self.terminal_recovery.remove(old_uuid) {
            self.terminal_recovery.insert(owned(new_uuid), recovery);
        }
        assert(self.terminal_recovery@ =~= rename_key(r0, old_uuid@, new_uuid@));
        self.runtime.replace_layout_terminal_uuid(old_uuid, new_uuid);
        let focused = match &self.active_terminal_uuid {
            Some(a) => str_eq(a.as_str(), old_uuid),
            None => false,
        };
        if focused {
            self.active_terminal_uuid = Some(owned(new_uuid));
        }
        true
    }
}

/// Default width of the left sidebar.
pub fn default_left_sidebar_width() -> (w: i32)
    ensures
        w == 220,
{
    220
}

/// Default width of the right sidebar.
pub fn default_right_sidebar_width() -> (w: i32)
    ensures
        w == 320,
{
    320
}

/// Persistent state of the entire application window.
#[derive(Debug, Clone, PartialEq, Eq)]
pub struct WindowState {
    pub sessions: Vec<SessionState>,
    pub active_session_index: usize,
    pub width: i32,
    pub height: i32,
    pub is_maximized: bool,
    pub left_sidebar_width: i32,
    pub right_sidebar_width: i32,
}

impl Default for WindowState {
    fn default() -> (w: Self)
        ensures
            w.sessions@.len() == 1,
            is_fresh_session(w.sessions@[0], "Session 1"@, None),
            w.sessions@[0].mode == SessionMode::Direct,
            !w.sessions@[0].runtime.managed,
            w.active_session_index == 0,
            w.width == 900,
            w.height == 600,
            !w.is_maximized,
            w.left_sidebar_width == 220,
            w.right_sidebar_width == 320,
    {
        let first = SessionState::new(owned("Session 1"));
        let mut sessions: Vec<SessionState> = Vec::new();
        sessions.push(first);
        WindowState {
            sessions,
            active_session_index: 0,
            width: 900,
            height: 600,
            is_maximized: false,
            left_sidebar_width: default_left_sidebar_width(),
            right_sidebar_width: default_right_sidebar_width(),
        }
    }
}

/// After normalization the focused terminal is always one of the layout's
/// terminals.
pub proof fn law_normalized_focus_is_live(layout: LayoutView, active: Option<Seq<char>>)
    ensures
        normalized_focus(layout, active) matches Some(a) && layout.has(a),
{
    lemma_count_is_uuid_len(layout);
    lemma_count_positive(layout);
    lemma_has_uuids(layout, layout.uuids()[0]);
}

/// After pruning, only terminals of the layout keep a recovery recipe.
pub proof fn law_pruned_recovery_within_layout(recovery: Map<Seq<char>, PaneRecovery>, layout: LayoutView)
    ensures
        recovery.restrict(layout.uuids().to_set()).dom().subset_of(layout.uuids().to_set()),
        forall|t: Seq<char>|
            #[trigger] recovery.dom().contains(t) && layout.uuids().contains(t) ==> recovery.restrict(
                layout.uuids().to_set(),
            )[t] == recovery[t],
{
}

} // verus!
