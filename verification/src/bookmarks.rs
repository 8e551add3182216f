//! Bookmarks: saved folder and/or ssh targets, and the commands that open them.

use vstd::prelude::*;

use crate::commands::move_item;
use crate::ids::{is_hyphenated_uuid, new_uuid};
use crate::session::recovery::{PaneTarget, PaneTargetView};
use crate::text::{
    chars_of, contains_ci, contains_ci_exec, lower, lower_chars, non_empty, non_empty_opt,
    opt_view, owned, shell_quote, shell_quote_exec, str_eq, trim, trimmed, contains, lemma_lower_idempotent,
    lemma_trim_lower,
};

verus! {

/// A saved folder and/or ssh target.
#[derive(Debug, PartialEq, Eq)]
pub struct Bookmark {
    pub uuid: String,
    pub name: String,
    pub directory: Option<String>,
    pub ssh_target: Option<String>,
}

/// Mathematical model of a [`Bookmark`].
pub struct BookmarkView {
    pub uuid: Seq<char>,
    pub name: Seq<char>,
    pub directory: Option<Seq<char>>,
    pub ssh_target: Option<Seq<char>>,
}

impl View for Bookmark {
    type V = BookmarkView;

    open spec fn view(&self) -> BookmarkView {
        BookmarkView {
            uuid: self.uuid@,
            name: self.name@,
            directory: opt_view(self.directory),
            ssh_target: opt_view(self.ssh_target),
        }
    }
}

impl Clone for Bookmark {
    fn clone(&self) -> (r: Self)
        ensures
            r@ == self@,
    {
        Bookmark {
            uuid: self.uuid.clone(),
            name: self.name.clone(),
            directory: self.directory.clone(),
            ssh_target: self.ssh_target.clone(),
        }
    }
}

/// `cd '<dir>'`.
pub open spec fn cd_command(dir: Seq<char>) -> Seq<char> {
    "cd "@ + shell_quote(dir)
}

/// The ssh invocation for a target, optionally running `inner` remotely.
pub open spec fn ssh_command(target: Seq<char>, inner: Option<Seq<char>>) -> Seq<char> {
    match inner {
        Some(c) => "ssh -t "@ + target + seq![' '] + shell_quote(c),
        None => "ssh "@ + target,
    }
}

/// The startup command of a new session opened from a bookmark: the ssh
/// invocation of a remote bookmark, nothing for a local one.
pub open spec fn startup_spec(b: BookmarkView) -> Option<Seq<char>> {
    match non_empty(b.ssh_target) {
        Some(t) => Some(ssh_command(t, match non_empty(b.directory) {
            Some(d) => Some(cd_command(d)),
            None => None,
        })),
        None => None,
    }
}

/// The starting folder of a new session opened from a bookmark: only a
/// local bookmark's folder.
pub open spec fn initial_cwd_spec(b: BookmarkView) -> Option<Seq<char>> {
    if b.ssh_target is None {
        non_empty(b.directory)
    } else {
        None
    }
}

/// A session opened from a remote bookmark runs exactly the bookmark's
/// command; a local bookmark's session starts in its folder instead, so a
/// new session never gets both a starting folder and a startup command.
pub proof fn law_session_start_from_bookmark(b: BookmarkView)
    ensures
        non_empty(b.ssh_target) is Some ==> startup_spec(b) == command_spec(b),
        !(initial_cwd_spec(b) is Some && startup_spec(b) is Some),
{
}

/// The command a bookmark runs, if it has a folder or an ssh target.
pub open spec fn command_spec(b: BookmarkView) -> Option<Seq<char>> {
    let local = match non_empty(b.directory) {
        Some(d) => Some(cd_command(d)),
        None => None,
    };
    match non_empty(b.ssh_target) {
        Some(t) => Some(ssh_command(t, local)),
        None => local,
    }
}

/// The one-line summary of a bookmark.
pub open spec fn summary_spec(b: BookmarkView) -> Seq<char> {
    match (non_empty(b.directory), non_empty(b.ssh_target)) {
        (Some(d), Some(t)) => d + " | ssh "@ + t,
        (Some(d), None) => d,
        (None, Some(t)) => "ssh "@ + t,
        (None, None) => "Empty bookmark"@,
    }
}

/// Bookmark search over name, summary and command.
pub open spec fn bookmark_matches_query(b: BookmarkView, query: Seq<char>) -> bool {
    let q = trim(query);
    q.len() == 0 || {
        let l = lower(q);
        ||| contains_ci(b.name, l)
        ||| contains_ci(summary_spec(b), l)
        ||| match command_spec(b) {
            Some(c) => contains_ci(c, l),
            None => false,
        }
    }
}

/// Index of the first bookmark whose uuid is `u`.
pub open spec fn first_bookmark_with_uuid(items: Seq<Bookmark>, u: Seq<char>) -> Option<int> {
    if exists|i: int| 0 <= i < items.len() && items[i].uuid@ == u {
        Some(choose|i: int| 0 <= i < items.len() && items[i].uuid@ == u && forall|j: int| 0 <= j < i ==> items[j].uuid@ != u)
    } else {
        None
    }
}

fn cd_command_exec(dir: &str) -> (s: String)
    ensures
        s@ == cd_command(dir@),
{
    let mut s = owned("cd ");
    let q = shell_quote_exec(dir);
    s.append(q.as_str());
    s
}

fn ssh_command_exec(target: &str, inner: Option<&str>) -> (s: String)
    ensures
        s@ == ssh_command(target@, match inner {
            Some(c) => Some(c@),
            None => None,
        }),
{
    match inner {
        Some(c) => {
            let mut s = owned("ssh -t ");
            s.append(target);
            crate::text::push_char(&mut s, ' ');
            let q = shell_quote_exec(c);
            s.append(q.as_str());
            s
        },
        None => {
            let mut s = owned("ssh ");
            s.append(target);
            s
        },
    }
}

impl Bookmark {
    /// A new, empty bookmark with a fresh uuid.
    pub fn new(name: &str) -> (b: Self)
        ensures
            is_hyphenated_uuid(b@.uuid),
            b@.name == name@,
            b@.directory is None,
            b@.ssh_target is None,
    {
        Bookmark { uuid: new_uuid(), name: owned(name), directory: None, ssh_target: None }
    }

    /// The command that opens this bookmark, if it has a target.
    pub fn command(&self) -> (c: Option<String>)
        ensures
            opt_view(c) == command_spec(self@),
    {
        let directory = non_empty_opt(&self.directory);
        let ssh_target = non_empty_opt(&self.ssh_target);
        let local = match directory {
            Some(d) => Some(cd_command_exec(d)),
            None => None,
        };
        match ssh_target {
            Some(t) => match &local {
                Some(l) => Some(ssh_command_exec(t, Some(l.as_str()))),
                None => Some(ssh_command_exec(t, None)),
            },
            None => local,
        }
    }

    /// A one-line description: folder and/or ssh target.
    pub fn summary(&self) -> (s: String)
        ensures
            s@ == summary_spec(self@),
    {
        let directory = non_empty_opt(&self.directory);
        let ssh_target = non_empty_opt(&self.ssh_target);
        match (directory, ssh_target) {
            (Some(d), Some(t)) => {
                let mut s = owned(d);
                s.append(" | ssh ");
                s.append(t);
                s
            },
            (Some(d), None) => owned(d),
            (None, Some(t)) => {
                let mut s = owned("ssh ");
                s.append(t);
                s
            },
            (None, None) => owned("Empty bookmark"),
        }
    }

    /// Whether opening the bookmark does anything.
    pub fn is_actionable(&self) -> (b: bool)
        ensures
            b == command_spec(self@) is Some,
    {
        self.command().is_some()
    }

    /// Initial working directory when opened as a new session; only local
    /// bookmarks (no ssh target) have one.
    pub fn session_initial_cwd(&self) -> (r: Option<&str>)
        ensures
            match r {
                Some(d) => initial_cwd_spec(self@) == Some(d@),
                None => initial_cwd_spec(self@) is None,
            },
    {
        if self.ssh_target.is_none() {
            non_empty_opt(&self.directory)
        } else {
            None
        }
    }

    /// Startup command for a new session: the ssh invocation of a remote
    /// bookmark; `None` for local bookmarks.
    pub fn session_startup_command(&self) -> (c: Option<String>)
        ensures
            opt_view(c) == startup_spec(self@),
    {
        match non_empty_opt(&self.ssh_target) {
            None => None,
            Some(t) => match non_empty_opt(&self.directory) {
                None => Some(ssh_command_exec(t, None)),
                Some(dir) => {
                    let cd = cd_command_exec(dir);
                    Some(ssh_command_exec(t, Some(cd.as_str())))
                },
            },
        }
    }

    /// The ssh host for remote workspace creation.
    pub fn remote_host(&self) -> (r: Option<&str>)
        ensures
            match r {
                Some(h) => non_empty(self@.ssh_target) == Some(h@),
                None => non_empty(self@.ssh_target) is None,
            },
    {
        non_empty_opt(&self.ssh_target)
    }

    /// Tooltip of the "New workspace" button.
    pub fn new_workspace_tooltip(&self) -> (s: String)
        ensures
            s@ == match non_empty(self@.ssh_target) {
                Some(h) => "New workspace on "@ + h,
                None => "New workspace from bookmark"@,
            },
    {
        match self.remote_host() {
            Some(h) => {
                let mut s = owned("New workspace on ");
                s.append(h);
                s
            },
            None => owned("New workspace from bookmark"),
        }
    }

    /// Icon of the "New workspace" button.
    pub fn new_workspace_icon(&self) -> (s: &'static str)
        ensures
            s@ == if non_empty(self@.ssh_target) is Some {
                "network-server-symbolic"@
            } else {
                "window-new-symbolic"@
            },
    {
        if self.remote_host().is_some() {
            "network-server-symbolic"
        } else {
            "window-new-symbolic"
        }
    }

    /// The inner command (without the ssh wrapper) to run on a pane already
    /// connected to the bookmark's host.
    pub fn remote_command(&self) -> (c: Option<String>)
        ensures
            opt_view(c) == match (non_empty(self@.ssh_target), non_empty(self@.directory)) {
                (Some(_), Some(d)) => Some(cd_command(d)),
                _ => None,
            },
    {
        if non_empty_opt(&self.ssh_target).is_none() {
            return None;
        }
        match non_empty_opt(&self.directory) {
            Some(d) => Some(cd_command_exec(d)),
            None => None,
        }
    }

    /// The pane target this bookmark opens.
    pub fn pane_target(&self) -> (t: Option<PaneTarget>)
        ensures
            match (non_empty(self@.directory), non_empty(self@.ssh_target)) {
                (Some(p), None) => t matches Some(pt) && pt@ == PaneTargetView::LocalFolder { path: p },
                (dir, Some(s)) => t matches Some(pt) && pt@ == PaneTargetView::RemoteShell {
                    ssh_target: s,
                    remote_folder: dir,
                },
                (None, None) => t is None,
            },
    {
        let directory = non_empty_opt(&self.directory);
        let ssh_target = non_empty_opt(&self.ssh_target);
        match (directory, ssh_target) {
            (Some(path), None) => Some(PaneTarget::LocalFolder { path: owned(path) }),
            (None, Some(s)) => Some(PaneTarget::RemoteShell { ssh_target: owned(s), remote_folder: None }),
            (Some(path), Some(s)) => Some(
                PaneTarget::RemoteShell { ssh_target: owned(s), remote_folder: Some(owned(path)) },
            ),
            (None, None) => None,
        }
    }
}

/// Whether a bookmark matches a search query (name, summary or command,
/// case-insensitive; a blank query matches every bookmark).
pub fn matches_query(bookmark: &Bookmark, query: &str) -> (b: bool)
    ensures
        b == bookmark_matches_query(bookmark@, query@),
{
    let q = trimmed(query);
    let qc = chars_of(q);
    if qc.len() == 0 {
        return true;
    }
    let l = lower_chars(qc.as_slice());
    if contains_ci_exec(bookmark.name.as_str(), l.as_slice()) {
        return true;
    }
    let summary = bookmark.summary();
    if contains_ci_exec(summary.as_str(), l.as_slice()) {
        return true;
    }
    match bookmark.command() {
        Some(c) => contains_ci_exec(c.as_str(), l.as_slice()),
        None => false,
    }
}

pub(crate) fn bookmark_position(items: &[Bookmark], u: &str) -> (r: Option<usize>)
    ensures
        match r {
            Some(i) => first_bookmark_with_uuid(items@, u@) == Some(i as int) && i < items@.len(),
            None => first_bookmark_with_uuid(items@, u@) is None,
        },
{
    let mut i: usize = 0;
    while i < items.len()
        invariant
            i <= items.len(),
            forall|j: int| 0 <= j < i ==> items@[j].uuid@ != u@,
        decreases items.len() - i,
    {
        if str_eq(items[i].uuid.as_str(), u) {
            proof {
                let w = choose|k: int| 0 <= k < items@.len() && items@[k].uuid@ == u@ && forall|j: int| 0 <= j < k ==> items@[j].uuid@ != u@;
                if w > i {
                    assert(items@[i as int].uuid@ == u@);
                }
            }
            return Some(i);
        }
        i = i + 1;
    }
    None
}

/// Move the item with `source_uuid` to the position of `target_uuid`;
/// nothing changes when either uuid is absent.
pub fn reorder(items: &mut Vec<Bookmark>, source_uuid: &str, target_uuid: &str)
    ensures
        match (first_bookmark_with_uuid(old(items)@, source_uuid@), first_bookmark_with_uuid(old(items)@, target_uuid@)) {
            (Some(s), Some(t)) => final(items)@ == old(items)@.remove(s).insert(t, old(items)@[s]),
            _ => final(items)@ == old(items)@,
        },
        final(items)@.to_multiset() == old(items)@.to_multiset(),
{
    let src = bookmark_position(items.as_slice(), source_uuid);
    let tgt = bookmark_position(items.as_slice(), target_uuid);
    match (src, tgt) {
        (Some(s), Some(t)) => move_item(items, s, t),
        _ => {},
    }
}

/// Bookmark search ignores the letter case of the query: a query and its
/// lower-cased form match the same bookmarks.
pub proof fn law_bookmark_search_ignores_query_case(b: BookmarkView, q: Seq<char>)
    ensures
        bookmark_matches_query(b, q) == bookmark_matches_query(b, lower(q)),
{
    lemma_trim_lower(q);
    lemma_lower_idempotent(trim(q));
}

/// Bookmark search finds a bookmark whose name, summary or command holds
/// the trimmed query, letter case ignored on both sides; a blank query
/// matches every bookmark.
pub proof fn law_bookmark_search_finds_text(b: BookmarkView, q: Seq<char>)
    ensures
        trim(q).len() == 0 ==> bookmark_matches_query(b, q),
        contains(lower(b.name), lower(trim(q))) ==> bookmark_matches_query(b, q),
        contains(lower(summary_spec(b)), lower(trim(q))) ==> bookmark_matches_query(b, q),
        command_spec(b) matches Some(cmd) && contains(lower(cmd), lower(trim(q))) ==> bookmark_matches_query(b, q),
{
}

} // verus!
