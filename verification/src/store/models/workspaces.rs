//! Workspace document records (`workspaces.json`) and their conversions to
//! and from the in-memory session model.

use vstd::prelude::*;

use crate::session::layout;
use crate::session::layout::clone_opt;
use crate::session::recovery;
use crate::store::envelope::Schema;
use crate::str_map::StrMap;

verus! {

pub const SCHEMA: Schema = Schema::Workspaces;
pub const CURRENT_VERSION: u32 = 1;

/// Accent color of a workspace.
#[derive(Debug, Clone, Copy, PartialEq, Eq, Structural)]
pub enum WorkspaceColor {
    Blue,
    Green,
    Yellow,
    Red,
    Purple,
    Pink,
    Teal,
    Orange,
}

impl Default for WorkspaceColor {
    fn default() -> (c: Self)
        ensures
            c == WorkspaceColor::Blue,
    {
        WorkspaceColor::Blue
    }
}

/// Stored retention policy of a workspace runtime.
#[derive(Debug, Clone, Copy, PartialEq, Eq, Structural)]
pub enum WorkspacePolicy {
    Persistent,
    Ephemeral,
}

impl Default for WorkspacePolicy {
    fn default() -> (p: Self)
        ensures
            p == WorkspacePolicy::Persistent,
    {
        WorkspacePolicy::Persistent
    }
}

impl WorkspacePolicy {
    /// The stored form of a runtime policy.
    pub fn from_runtime(p: crate::runtime::WorkspacePolicy) -> (r: Self)
        ensures
            r == match p {
                crate::runtime::WorkspacePolicy::Persistent => WorkspacePolicy::Persistent,
                crate::runtime::WorkspacePolicy::Ephemeral => WorkspacePolicy::Ephemeral,
            },
    {
        match p {
            crate::runtime::WorkspacePolicy::Persistent => WorkspacePolicy::Persistent,
            crate::runtime::WorkspacePolicy::Ephemeral => WorkspacePolicy::Ephemeral,
        }
    }

    /// The runtime policy a stored policy names.
    pub fn to_runtime(self) -> (r: crate::runtime::WorkspacePolicy)
        ensures
            r == match self {
                WorkspacePolicy::Persistent => crate::runtime::WorkspacePolicy::Persistent,
                WorkspacePolicy::Ephemeral => crate::runtime::WorkspacePolicy::Ephemeral,
            },
    {
        match self {
            WorkspacePolicy::Persistent => crate::runtime::WorkspacePolicy::Persistent,
            WorkspacePolicy::Ephemeral => crate::runtime::WorkspacePolicy::Ephemeral,
        }
    }
}

/// How a workspace got its runtime.
#[derive(Debug, Clone, Copy, PartialEq, Eq, Structural)]
pub enum RuntimeAttachmentKind {
    Created,
    Attached,
    Recovered,
}

impl Default for RuntimeAttachmentKind {
    fn default() -> (k: Self)
        ensures
            k == RuntimeAttachmentKind::Created,
    {
        RuntimeAttachmentKind::Created
    }
}

/// The runtime a workspace was last bound to.
#[derive(Debug, Clone, PartialEq, Eq)]
pub struct RuntimeRef {
    pub runtime_id: String,
    pub attachment_kind: RuntimeAttachmentKind,
}

/// Whether typing goes to every pane of a workspace.
#[derive(Debug, Clone, Copy, PartialEq, Eq, Structural)]
pub enum InputSyncState {
    Off,
    On,
}

impl Default for InputSyncState {
    fn default() -> (s: Self)
        ensures
            s == InputSyncState::Off,
    {
        InputSyncState::Off
    }
}

/// Stored origin of a pane.
#[derive(Debug, Clone, PartialEq, Eq)]
pub enum PaneSource {
    EmptyShell,
    Command { title: String },
    Manual,
}

/// Stored target of a pane.
#[derive(Debug, Clone, PartialEq, Eq)]
pub enum PaneTarget {
    LocalFolder { path: String },
    RemoteShell { ssh_target: String, remote_folder: Option<String> },
}

/// A stored startup step.
#[derive(Debug, Clone, PartialEq, Eq)]
pub enum StartupStep {
    SendText { text: String, execute: bool },
}

/// A stored pane recovery recipe.
#[derive(Debug, Clone, PartialEq, Eq)]
pub struct PaneRecoveryRecord {
    pub source: PaneSource,
    pub target: Option<PaneTarget>,
    pub startup: Vec<StartupStep>,
}

/// Stored split direction.
#[derive(Debug, Clone, Copy, PartialEq, Eq, Structural)]
pub enum SplitOrientation {
    Horizontal,
    Vertical,
}

impl SplitOrientation {
    /// The stored form of a split direction.
    pub fn from_layout(o: layout::SplitOrientation) -> (r: Self)
        ensures
            r == match o {
                layout::SplitOrientation::Horizontal => SplitOrientation::Horizontal,
                layout::SplitOrientation::Vertical => SplitOrientation::Vertical,
            },
    {
        match o {
            layout::SplitOrientation::Horizontal => SplitOrientation::Horizontal,
            layout::SplitOrientation::Vertical => SplitOrientation::Vertical,
        }
    }

    /// The split direction a stored one names.
    pub fn to_layout(self) -> (r: layout::SplitOrientation)
        ensures
            r == match self {
                SplitOrientation::Horizontal => layout::SplitOrientation::Horizontal,
                SplitOrientation::Vertical => layout::SplitOrientation::Vertical,
            },
    {
        match self {
            SplitOrientation::Horizontal => layout::SplitOrientation::Horizontal,
            SplitOrientation::Vertical => layout::SplitOrientation::Vertical,
        }
    }
}

impl PaneSource {
    /// The in-memory source this stored one names.
    pub open spec fn recovery_form(self) -> recovery::PaneSource {
        match self {
            PaneSource::EmptyShell => recovery::PaneSource::EmptyShell,
            PaneSource::Command { title } => recovery::PaneSource::Command { title },
            PaneSource::Manual => recovery::PaneSource::Manual,
        }
    }

    /// The in-memory source a stored one names.
    pub fn to_recovery(&self) -> (r: recovery::PaneSource)
        ensures
            r == self.recovery_form(),
    {
        match self {
            PaneSource::EmptyShell => recovery::PaneSource::EmptyShell,
            PaneSource::Command { title } => recovery::PaneSource::Command { title: title.clone() },
            PaneSource::Manual => recovery::PaneSource::Manual,
        }
    }
}

impl PaneTarget {
    /// The in-memory target this stored one names.
    pub open spec fn recovery_form(self) -> recovery::PaneTarget {
        match self {
            PaneTarget::LocalFolder { path } => recovery::PaneTarget::LocalFolder { path },
            PaneTarget::RemoteShell { ssh_target, remote_folder } => recovery::PaneTarget::RemoteShell {
                ssh_target,
                remote_folder,
            },
        }
    }

    /// The in-memory target a stored one names.
    pub fn to_recovery(&self) -> (r: recovery::PaneTarget)
        ensures
            r == self.recovery_form(),
    {
        match self {
            PaneTarget::LocalFolder { path } => recovery::PaneTarget::LocalFolder { path: path.clone() },
            PaneTarget::RemoteShell { ssh_target, remote_folder } => recovery::PaneTarget::RemoteShell {
                ssh_target: ssh_target.clone(),
                remote_folder: match remote_folder {
                    Some(f) => Some(f.clone()),
                    None => None,
                },
            },
        }
    }

    /// The stored form of an in-memory target.
    pub fn from_recovery(t: &recovery::PaneTarget) -> (r: Self)
        ensures
            r == match *t {
                recovery::PaneTarget::LocalFolder { path } => PaneTarget::LocalFolder { path },
                recovery::PaneTarget::RemoteShell { ssh_target, remote_folder } => PaneTarget::RemoteShell {
                    ssh_target,
                    remote_folder,
                },
            },
    {
        match t {
            recovery::PaneTarget::LocalFolder { path } => PaneTarget::LocalFolder { path: path.clone() },
            recovery::PaneTarget::RemoteShell { ssh_target, remote_folder } => PaneTarget::RemoteShell {
                ssh_target: ssh_target.clone(),
                remote_folder: match remote_folder {
                    Some(f) => Some(f.clone()),
                    None => None,
                },
            },
        }
    }
}

impl StartupStep {
    /// The in-memory step this stored one names.
    pub open spec fn recovery_form(self) -> recovery::StartupStep {
        match self {
            StartupStep::SendText { text, execute } => recovery::StartupStep::SendText { text, execute },
        }
    }

    /// The in-memory step a stored one names.
    pub fn to_recovery(&self) -> (r: recovery::StartupStep)
        ensures
            r == self.recovery_form(),
    {
        match self {
            StartupStep::SendText { text, execute } => recovery::StartupStep::SendText {
                text: text.clone(),
                execute: *execute,
            },
        }
    }

    /// The stored form of an in-memory step.
    pub fn from_recovery(s: &recovery::StartupStep) -> (r: Self)
        ensures
            r == match *s {
                recovery::StartupStep::SendText { text, execute } => StartupStep::SendText { text, execute },
            },
    {
        match s {
            recovery::StartupStep::SendText { text, execute } => StartupStep::SendText {
                text: text.clone(),
                execute: *execute,
            },
        }
    }
}

/// The endpoint key stored for a workspace runtime.
pub fn endpoint_key_from_runtime(runtime: &crate::runtime::WorkspaceRuntime) -> (k: String)
    ensures
        k@ == crate::runtime::endpoint_host_key(runtime.endpoint@),
{
    runtime.endpoint.host_key()
}

/// The stored runtime reference of a workspace runtime: its live runtime
/// id, if known, as created by this client.
pub fn runtime_ref_from_workspace(runtime: &crate::runtime::WorkspaceRuntime) -> (r: Option<RuntimeRef>)
    ensures
        match runtime.runtime_id {
            Some(id) => r == Some(RuntimeRef { runtime_id: id, attachment_kind: RuntimeAttachmentKind::Created }),
            None => r is None,
        },
{
    match &runtime.runtime_id {
        Some(id) => Some(RuntimeRef { runtime_id: id.clone(), attachment_kind: RuntimeAttachmentKind::Created }),
        None => None,
    }
}

impl PaneRecoveryRecord {
    /// The in-memory recovery recipe a stored one names.
    pub fn to_recovery(&self) -> (r: recovery::PaneRecovery)
        ensures
            r.source == self.source.recovery_form(),
            r.target == (match self.target {
                Some(t) => Some(t.recovery_form()),
                None => None,
            }),
            r.startup@ == self.startup@.map_values(|s: StartupStep| s.recovery_form()),
    {
        let target = match &self.target {
            Some(t) => Some(t.to_recovery()),
            None => None,
        };
        let mut startup: Vec<recovery::StartupStep> = Vec::new();
        let mut i: usize = 0;
        while i < self.startup.len()
            invariant
                i <= self.startup@.len(),
                startup@ == self.startup@.take(i as int).map_values(|s: StartupStep| s.recovery_form()),
            decreases self.startup@.len() - i,
        {
            startup.push(self.startup[i].to_recovery());
            proof {
                assert(self.startup@.take(i + 1) == self.startup@.take(i as int).push(self.startup@[i as int]));
            }
            i = i + 1;
            assert(startup@ =~= self.startup@.take(i as int).map_values(|s: StartupStep| s.recovery_form()));
        }
        assert(self.startup@.take(i as int) =~= self.startup@);
        recovery::PaneRecovery { source: self.source.to_recovery(), target, startup }
    }
}

/// Stored layout tree. A split's `ratio` holds the IEEE-754 binary64 bits
/// of the share given to `first`, as in the session layout.
#[derive(Debug, PartialEq, Eq)]
pub enum LayoutNode {
    Terminal {
        uuid: String,
        profile: Option<String>,
        cwd: Option<String>,
        custom_title: Option<String>,
    },
    Split {
        orientation: SplitOrientation,
        ratio: u64,
        first: Box<LayoutNode>,
        second: Box<LayoutNode>,
    },
}

/// The stored form of a split direction.
pub open spec fn stored_orientation(o: layout::SplitOrientation) -> SplitOrientation {
    match o {
        layout::SplitOrientation::Horizontal => SplitOrientation::Horizontal,
        layout::SplitOrientation::Vertical => SplitOrientation::Vertical,
    }
}

/// The split direction a stored one names.
pub open spec fn session_orientation(o: SplitOrientation) -> layout::SplitOrientation {
    match o {
        SplitOrientation::Horizontal => layout::SplitOrientation::Horizontal,
        SplitOrientation::Vertical => layout::SplitOrientation::Vertical,
    }
}

/// The stored form of a layout tree: the same shape, ids, directories,
/// titles and ratios.
pub open spec fn stored_layout(n: layout::LayoutNode) -> LayoutNode
    decreases n,
{
    match n {
        layout::LayoutNode::Terminal { uuid, profile, cwd, custom_title } => LayoutNode::Terminal {
            uuid,
            profile,
            cwd,
            custom_title,
        },
        layout::LayoutNode::Split { orientation, ratio, first, second } => LayoutNode::Split {
            orientation: stored_orientation(orientation),
            ratio,
            first: Box::new(stored_layout(*first)),
            second: Box::new(stored_layout(*second)),
        },
    }
}

/// The session layout tree a stored one names.
pub open spec fn session_layout(n: LayoutNode) -> layout::LayoutNode
    decreases n,
{
    match n {
        LayoutNode::Terminal { uuid, profile, cwd, custom_title } => layout::LayoutNode::Terminal {
            uuid,
            profile,
            cwd,
            custom_title,
        },
        LayoutNode::Split { orientation, ratio, first, second } => layout::LayoutNode::Split {
            orientation: session_orientation(orientation),
            ratio,
            first: Box::new(session_layout(*first)),
            second: Box::new(session_layout(*second)),
        },
    }
}

impl LayoutNode {
    /// The stored form of a session layout tree.
    pub fn from_layout(n: &layout::LayoutNode) -> (r: Self)
        ensures
            r == stored_layout(*n),
        decreases n,
    {
        match n {
            layout::LayoutNode::Terminal { uuid, profile, cwd, custom_title } => LayoutNode::Terminal {
                uuid: uuid.clone(),
                profile: clone_opt(profile),
                cwd: clone_opt(cwd),
                custom_title: clone_opt(custom_title),
            },
            layout::LayoutNode::Split { orientation, ratio, first, second } => LayoutNode::Split {
                orientation: SplitOrientation::from_layout(*orientation),
                ratio: *ratio,
                first: Box::new(LayoutNode::from_layout(first)),
                second: Box::new(LayoutNode::from_layout(second)),
            },
        }
    }

    /// The session layout tree a stored one names.
    pub fn to_layout(&self) -> (r: layout::LayoutNode)
        ensures
            r == session_layout(*self),
        decreases self,
    {
        match self {
            LayoutNode::Terminal { uuid, profile, cwd, custom_title } => layout::LayoutNode::Terminal {
                uuid: uuid.clone(),
                profile: clone_opt(profile),
                cwd: clone_opt(cwd),
                custom_title: clone_opt(custom_title),
            },
            LayoutNode::Split { orientation, ratio, first, second } => layout::LayoutNode::Split {
                orientation: orientation.to_layout(),
                ratio: *ratio,
                first: Box::new(first.to_layout()),
                second: Box::new(second.to_layout()),
            },
        }
    }
}

/// Storing a session layout and reading it back gives the same layout.
pub proof fn law_layout_round_trip(n: layout::LayoutNode)
    ensures
        session_layout(stored_layout(n)) == n,
    decreases n,
{
    match n {
        layout::LayoutNode::Terminal { .. } => {},
        layout::LayoutNode::Split { orientation, ratio, first, second } => {
            law_layout_round_trip(*first);
            law_layout_round_trip(*second);
        },
    }
}

impl Clone for LayoutNode {
    fn clone(&self) -> (r: Self)
        ensures
            r == *self,
    {
        clone_stored(self)
    }
}

fn clone_stored(n: &LayoutNode) -> (r: LayoutNode)
    ensures
        r == *n,
    decreases n,
{
    match n {
        LayoutNode::Terminal { uuid, profile, cwd, custom_title } => LayoutNode::Terminal {
            uuid: uuid.clone(),
            profile: clone_opt(profile),
            cwd: clone_opt(cwd),
            custom_title: clone_opt(custom_title),
        },
        LayoutNode::Split { orientation, ratio, first, second } => LayoutNode::Split {
            orientation: *orientation,
            ratio: *ratio,
            first: Box::new(clone_stored(first)),
            second: Box::new(clone_stored(second)),
        },
    }
}

/// One stored workspace.
#[derive(Debug, Clone, PartialEq, Eq)]
pub struct WorkspaceRecord {
    pub id: String,
    pub name: String,
    pub user_renamed: bool,
    pub endpoint_key: String,
    pub policy: WorkspacePolicy,
    pub runtime_ref: Option<RuntimeRef>,
    pub layout: LayoutNode,
    pub active_pane_id: Option<String>,
    pub zoomed_pane_id: Option<String>,
    pub input_sync: InputSyncState,
    pub color: WorkspaceColor,
    pub pane_recovery: StrMap<PaneRecoveryRecord>,
}

/// The workspaces document: every stored workspace and the active one.
#[derive(Debug, Clone, PartialEq, Eq)]
pub struct WorkspaceStore {
    pub active_workspace_id: Option<String>,
    pub workspaces: Vec<WorkspaceRecord>,
}

impl Default for WorkspaceStore {
    fn default() -> (s: Self)
        ensures
            s.active_workspace_id is None,
            s.workspaces@.len() == 0,
    {
        WorkspaceStore { active_workspace_id: None, workspaces: Vec::new() }
    }
}

/// A record with its runtime binding dropped.
pub open spec fn unbound(w: WorkspaceRecord) -> WorkspaceRecord {
    WorkspaceRecord { runtime_ref: None, ..w }
}

impl WorkspaceStore {
    /// The same document with every runtime binding dropped: bindings name
    /// runtimes of one machine and do not carry over to another.
    pub fn without_runtime_refs(self) -> (r: Self)
        ensures
            r.active_workspace_id == self.active_workspace_id,
            r.workspaces@ == self.workspaces@.map_values(|w: WorkspaceRecord| unbound(w)),
    {
        let WorkspaceStore { active_workspace_id, workspaces } = self;
        let ghost orig = workspaces@;
        let mut workspaces = workspaces;
        let mut i: usize = 0;
        while i < workspaces.len()
            invariant
                workspaces@.len() == orig.len(),
                i <= orig.len(),
                forall|j: int| 0 <= j < i ==> workspaces@[j] == unbound(orig[j]),
                forall|j: int| i <= j < orig.len() ==> workspaces@[j] == orig[j],
            decreases orig.len() - i,
        {
            workspaces[i].runtime_ref = None;
            i = i + 1;
        }
        assert(workspaces@ =~= orig.map_values(|w: WorkspaceRecord| unbound(w)));
        WorkspaceStore { active_workspace_id, workspaces }
    }
}

/// The endpoint key of the local daemon.
pub const LOCAL_ENDPOINT_KEY: &'static str = "local";

/// The runtime policy a stored policy names.
pub open spec fn runtime_policy(p: WorkspacePolicy) -> crate::runtime::WorkspacePolicy {
    match p {
        WorkspacePolicy::Persistent => crate::runtime::WorkspacePolicy::Persistent,
        WorkspacePolicy::Ephemeral => crate::runtime::WorkspacePolicy::Ephemeral,
    }
}

/// Whether a stored workspace is daemon-managed: it lives on a remote
/// endpoint or names a runtime.
pub open spec fn record_is_managed(w: WorkspaceRecord) -> bool {
    w.endpoint_key@ != LOCAL_ENDPOINT_KEY@ || w.runtime_ref is Some
}

/// The endpoint a stored key names: the local daemon, or a remote host by
/// its key.
pub open spec fn record_endpoint(w: WorkspaceRecord) -> crate::runtime::EndpointView {
    if w.endpoint_key@ == LOCAL_ENDPOINT_KEY@ {
        crate::runtime::EndpointView::Local
    } else {
        crate::runtime::EndpointView::Remote { host: w.endpoint_key@ }
    }
}

impl WorkspaceRecord {
    /// The runtime metadata of a stored workspace: its endpoint, policy and
    /// runtime id; a managed workspace also gets a placeholder binding,
    /// pending a daemon pane, for every terminal of its layout.
    pub fn to_runtime(&self) -> (r: crate::runtime::WorkspaceRuntime)
        ensures
            r.managed == record_is_managed(*self),
            r.endpoint@ == record_endpoint(*self),
            r.policy == runtime_policy(self.policy),
            r.runtime_id == (match self.runtime_ref {
                Some(rr) => Some(rr.runtime_id),
                None => None,
            }),
            record_is_managed(*self) ==> crate::runtime::values_view(r.pane_bindings@)
                == crate::runtime::placeholder_bindings(Map::empty(), session_layout(self.layout)@.uuids().to_set())
                && r.pending_layout_panes@.dom() == session_layout(self.layout)@.uuids().to_set(),
            !record_is_managed(*self) ==> r.pane_bindings@ == Map::<Seq<char>, String>::empty()
                && r.pending_layout_panes@.dom() == Set::<Seq<char>>::empty(),
    {
        let local = crate::text::str_eq(self.endpoint_key.as_str(), LOCAL_ENDPOINT_KEY);
        let endpoint = if local {
            crate::runtime::RuntimeEndpoint::Local
        } else {
            crate::runtime::RuntimeEndpoint::Remote { host: self.endpoint_key.clone() }
        };
        let managed = !local || self.runtime_ref.is_some();
        let runtime_id = match &self.runtime_ref {
            Some(rr) => Some(rr.runtime_id.clone()),
            None => None,
        };
        let mut runtime = crate::runtime::WorkspaceRuntime {
            managed,
            endpoint,
            policy: self.policy.to_runtime(),
            runtime_id,
            pane_bindings: StrMap::new(),
            pending_layout_panes: crate::str_map::StrSet::new(),
        };
        if managed {
            let layout = self.layout.to_layout();
            let uuids = layout.terminal_uuids();
            runtime.ensure_placeholder_bindings(uuids.as_slice());
            proof {
                assert(crate::runtime::values_view(Map::<Seq<char>, String>::empty()) =~= Map::empty());
                let l = crate::text::strs_view(uuids@).to_set();
                assert(crate::runtime::placeholder_pending(Set::empty(), Set::empty(), l) =~= l);
            }
        }
        runtime
    }
}

} // verus!
