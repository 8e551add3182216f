//! Pane recovery recipes: source, target, and startup steps.
//!
//! These types describe *what* a pane was doing so it can be reconstructed
//! after restart.

use vstd::prelude::*;

use crate::text::{opt_view, owned, push_char, push_decimal, dec, shell_quote, shell_quote_exec};

verus! {

/// What a pane was opened from.
#[derive(Debug, PartialEq, Eq)]
pub enum PaneSource {
    EmptyShell,
    Bookmark { name: String },
    Command { title: String },
    Manual,
}

/// A pane source as older state files may hold it, removed variants
/// included.
#[derive(Debug, PartialEq, Eq)]
pub enum StoredPaneSource {
    EmptyShell,
    Bookmark { name: String },
    Command { title: String },
    /// Panes opened from a session template, a feature since removed.
    SessionTemplate { name: String },
    Manual,
}

impl PaneSource {
    /// The source a stored one stands for: a removed session-template
    /// source loads as a manual pane.
    pub fn from_stored(s: StoredPaneSource) -> (r: Self)
        ensures
            r == match s {
                StoredPaneSource::EmptyShell => PaneSource::EmptyShell,
                StoredPaneSource::Bookmark { name } => PaneSource::Bookmark { name },
                StoredPaneSource::Command { title } => PaneSource::Command { title },
                StoredPaneSource::SessionTemplate { .. } => PaneSource::Manual,
                StoredPaneSource::Manual => PaneSource::Manual,
            },
    {
        match s {
            StoredPaneSource::EmptyShell => PaneSource::EmptyShell,
            StoredPaneSource::Bookmark { name } => PaneSource::Bookmark { name },
            StoredPaneSource::Command { title } => PaneSource::Command { title },
            StoredPaneSource::SessionTemplate { .. } => PaneSource::Manual,
            StoredPaneSource::Manual => PaneSource::Manual,
        }
    }
}

/// A step replayed into a recovered pane.
#[derive(Debug, PartialEq, Eq)]
pub enum StartupStep {
    SendText { text: String, execute: bool },
}

impl Clone for PaneSource {
    fn clone(&self) -> (r: Self)
        ensures
            r == *self,
    {
        match self {
            PaneSource::EmptyShell => PaneSource::EmptyShell,
            PaneSource::Bookmark { name } => PaneSource::Bookmark { name: name.clone() },
            PaneSource::Command { title } => PaneSource::Command { title: title.clone() },
            PaneSource::Manual => PaneSource::Manual,
        }
    }
}

impl Clone for StartupStep {
    fn clone(&self) -> (r: Self)
        ensures
            r == *self,
    {
        match self {
            StartupStep::SendText { text, execute } => StartupStep::SendText { text: text.clone(), execute: *execute },
        }
    }
}

/// Where a pane points.
#[derive(Debug, PartialEq, Eq)]
pub enum PaneTarget {
    LocalFolder { path: String },
    RemoteShell { ssh_target: String, remote_folder: Option<String> },
}

/// Mathematical model of a [`PaneTarget`].
pub enum PaneTargetView {
    LocalFolder { path: Seq<char> },
    RemoteShell { ssh_target: Seq<char>, remote_folder: Option<Seq<char>> },
}

impl View for PaneTarget {
    type V = PaneTargetView;

    open spec fn view(&self) -> PaneTargetView {
        match self {
            PaneTarget::LocalFolder { path } => PaneTargetView::LocalFolder { path: path@ },
            PaneTarget::RemoteShell { ssh_target, remote_folder } => PaneTargetView::RemoteShell {
                ssh_target: ssh_target@,
                remote_folder: opt_view(*remote_folder),
            },
        }
    }
}

impl Clone for PaneTarget {
    fn clone(&self) -> (r: Self)
        ensures
            r@ == self@,
    {
        match self {
            PaneTarget::LocalFolder { path } => PaneTarget::LocalFolder { path: path.clone() },
            PaneTarget::RemoteShell { ssh_target, remote_folder } => PaneTarget::RemoteShell {
                ssh_target: ssh_target.clone(),
                remote_folder: remote_folder.clone(),
            },
        }
    }
}

/// How to rebuild one pane.
#[derive(Debug, PartialEq, Eq)]
pub struct PaneRecovery {
    pub source: PaneSource,
    pub target: Option<PaneTarget>,
    pub startup: Vec<StartupStep>,
}

/// Mathematical model of a [`PaneRecovery`].
pub struct PaneRecoveryView {
    pub source: PaneSource,
    pub target: Option<PaneTargetView>,
    pub startup: Seq<StartupStep>,
}

impl View for PaneRecovery {
    type V = PaneRecoveryView;

    open spec fn view(&self) -> PaneRecoveryView {
        PaneRecoveryView {
            source: self.source,
            target: match self.target {
                Some(t) => Some(t@),
                None => None,
            },
            startup: self.startup@,
        }
    }
}

impl Clone for PaneRecovery {
    fn clone(&self) -> (r: Self)
        ensures
            r@ == self@,
    {
        let startup = self.startup.clone();
        assert(startup@ =~= self.startup@);
        let target = match &self.target {
            Some(t) => Some(t.clone()),
            None => None,
        };
        PaneRecovery { source: self.source.clone(), target, startup }
    }
}

/// The shell command that opens `path` on the remote side.
pub open spec fn remote_shell_command(path: Seq<char>) -> Seq<char> {
    "cd "@ + shell_quote(path) + " && exec ${SHELL:-/bin/bash} -l"@
}

/// The ssh invocation, optionally running a remote command.
pub open spec fn ssh_exec_command(ssh_target: Seq<char>, remote_command: Option<Seq<char>>) -> Seq<char> {
    match remote_command {
        None => "ssh "@ + ssh_target,
        Some(c) => "ssh -t "@ + ssh_target + seq![' '] + shell_quote(c),
    }
}

/// Decimal rendering of a signed integer.
pub open spec fn dec_signed(n: int) -> Seq<char> {
    if n < 0 {
        seq!['-'] + dec((-n) as nat)
    } else {
        dec(n as nat)
    }
}

/// Append the decimal rendering of a signed integer.
pub fn push_signed(out: &mut String, n: i32)
    ensures
        final(out)@ == old(out)@ + dec_signed(n as int),
{
    if n < 0 {
        push_char(out, '-');
        let m: i64 = -(n as i64);
        push_decimal(out, m as u64);
        assert(final(out)@ =~= old(out)@ + dec_signed(n as int));
    } else {
        push_decimal(out, n as u64);
    }
}

fn remote_shell_command_exec(path: &str) -> (r: String)
    ensures
        r@ == remote_shell_command(path@),
{
    let mut r = owned("cd ");
    let q = shell_quote_exec(path);
    r.append(q.as_str());
    r.append(" && exec ${SHELL:-/bin/bash} -l");
    r
}

fn ssh_exec_command_exec(ssh_target: &str, remote_command: Option<&str>) -> (r: String)
    ensures
        r@ == ssh_exec_command(ssh_target@, match remote_command {
            Some(c) => Some(c@),
            None => None,
        }),
{
    match remote_command {
        None => {
            let mut r = owned("ssh ");
            r.append(ssh_target);
            r
        },
        Some(c) => {
            let mut r = owned("ssh -t ");
            r.append(ssh_target);
            push_char(&mut r, ' ');
            let q = shell_quote_exec(c);
            r.append(q.as_str());
            r
        },
    }
}

impl PaneRecovery {
    /// The recipe of a plain shell pane.
    pub fn empty_shell() -> (r: Self)
        ensures
            r.source == PaneSource::EmptyShell,
            r.target is None,
            r.startup@.len() == 0,
    {
        PaneRecovery { source: PaneSource::EmptyShell, target: None, startup: Vec::new() }
    }
}

impl PaneTarget {
    /// The working directory a local pane starts in.
    pub fn initial_cwd(&self) -> (r: Option<&str>)
        ensures
            match self@ {
                PaneTargetView::LocalFolder { path } => r matches Some(p) && p@ == path,
                PaneTargetView::RemoteShell { .. } => r is None,
            },
    {
        match self {
            PaneTarget::LocalFolder { path } => Some(path.as_str()),
            PaneTarget::RemoteShell { .. } => None,
        }
    }

    /// The input that replaces a managed pane's shell with the remote session.
    pub fn managed_startup_input(&self) -> (r: Option<String>)
        ensures
            match self@ {
                PaneTargetView::LocalFolder { .. } => r is None,
                PaneTargetView::RemoteShell { ssh_target, remote_folder } => r matches Some(s)
                    && s@ == "exec "@ + ssh_exec_command(ssh_target, match remote_folder {
                    Some(f) => Some(remote_shell_command(f)),
                    None => None,
                }) + seq!['\n'],
            },
    {
        match self {
            PaneTarget::LocalFolder { .. } => None,
            PaneTarget::RemoteShell { ssh_target, remote_folder } => {
                let inner = match remote_folder {
                    Some(f) => Some(remote_shell_command_exec(f.as_str())),
                    None => None,
                };
                let cmd = match &inner {
                    Some(c) => ssh_exec_command_exec(ssh_target.as_str(), Some(c.as_str())),
                    None => ssh_exec_command_exec(ssh_target.as_str(), None),
                };
                let mut r = owned("exec ");
                r.append(cmd.as_str());
                push_char(&mut r, '\n');
                Some(r)
            },
        }
    }

    /// Whether the pane's child process is managed by the target (remote shells).
    pub fn manages_child_lifecycle(&self) -> (b: bool)
        ensures
            b == (self@ is RemoteShell),
    {
        match self {
            PaneTarget::LocalFolder { .. } => false,
            PaneTarget::RemoteShell { .. } => true,
        }
    }

    /// The message shown when the pane's process exits with `status`.
    pub fn failure_message(&self, status: i32) -> (s: String)
        ensures
            s@ == match self@ {
                PaneTargetView::LocalFolder { path } => "Failed to open local folder "@ + path
                    + " (exit status "@ + dec_signed(status as int) + seq![')'],
                PaneTargetView::RemoteShell { ssh_target, .. } => "Failed to connect to "@
                    + ssh_target + " (exit status "@ + dec_signed(status as int) + seq![')'],
            },
    {
        let mut s = match self {
            PaneTarget::LocalFolder { path } => {
                let mut s = owned("Failed to open local folder ");
                s.append(path.as_str());
                s
            },
            PaneTarget::RemoteShell { ssh_target, .. } => {
                let mut s = owned("Failed to connect to ");
                s.append(ssh_target.as_str());
                s
            },
        };
        s.append(" (exit status ");
        push_signed(&mut s, status);
        push_char(&mut s, ')');
        s
    }
}

impl StartupStep {
    /// The text typed into the terminal for this step.
    pub fn terminal_input(&self) -> (s: String)
        ensures
            match self {
                StartupStep::SendText { text, execute } => s@ == if *execute {
                    text@.push('\n')
                } else {
                    text@
                },
            },
    {
        match self {
            StartupStep::SendText { text, execute } => {
                let mut s = text.clone();
                if *execute {
                    push_char(&mut s, '\n');
                }
                s
            },
        }
    }
}

} // verus!
