//! Leader-prefix command shortcut resolution.
//!
//! After the leader key is pressed, subsequent keystrokes are matched against
//! per-command shortcut sequences. Resolution is host/context-aware: only
//! commands visible on the current host are candidates, and the first match
//! wins. Duplicate sequences across hosts are intentional.

use vstd::prelude::*;

use crate::commands::{commands_view, is_visible_on, visible_on, SavedCommand, SavedCommandView};
use crate::text::{str_eq, strs_view};

verus! {

/// Result of attempting to advance a leader key sequence.
#[derive(Debug, Clone, PartialEq, Eq)]
pub enum LeaderMatch {
    /// No command matches the accumulated keys — abort leader mode.
    NoMatch,
    /// At least one command has a longer sequence starting with the accumulated keys.
    Partial,
    /// Exactly one command matched fully.
    Complete(String),
}

/// Whether a command takes part in resolution: it has a sequence and is
/// visible on the host (every command is, when no host is given).
pub open spec fn is_candidate(c: SavedCommandView, host_key: Option<Seq<char>>) -> bool {
    &&& c.shortcut_keys.len() > 0
    &&& match host_key {
        Some(h) => visible_on(c.host_tags, h),
        None => true,
    }
}

/// Whether a candidate's sequence is exactly `keys`.
pub open spec fn completes(c: SavedCommandView, keys: Seq<Seq<char>>, host_key: Option<Seq<char>>) -> bool {
    is_candidate(c, host_key) && c.shortcut_keys == keys
}

/// Whether a candidate's sequence strictly extends `keys`.
pub open spec fn extends(c: SavedCommandView, keys: Seq<Seq<char>>, host_key: Option<Seq<char>>) -> bool {
    &&& is_candidate(c, host_key)
    &&& c.shortcut_keys.len() > keys.len()
    &&& c.shortcut_keys.take(keys.len() as int) == keys
}

/// Index of the first command whose sequence is exactly `keys`.
pub open spec fn first_complete(cmds: Seq<SavedCommandView>, keys: Seq<Seq<char>>, host_key: Option<Seq<char>>) -> Option<int>
    decreases cmds.len(),
{
    if cmds.len() == 0 {
        None
    } else {
        match first_complete(cmds.drop_last(), keys, host_key) {
            Some(i) => Some(i),
            None => if completes(cmds.last(), keys, host_key) {
                Some(cmds.len() - 1)
            } else {
                None
            },
        }
    }
}

fn strs_equal(a: &[String], b: &[String]) -> (r: bool)
    ensures
        r == (strs_view(a@) == strs_view(b@)),
{
    if a.len() != b.len() {
        return false;
    }
    let mut i: usize = 0;
    while i < a.len()
        invariant
            i <= a.len(),
            a.len() == b.len(),
            forall|j: int| 0 <= j < i ==> a@[j]@ == b@[j]@,
        decreases a.len() - i,
    {
        if !str_eq(a[i].as_str(), b[i].as_str()) {
            assert(strs_view(a@)[i as int] != strs_view(b@)[i as int]);
            return false;
        }
        i = i + 1;
    }
    assert(strs_view(a@) =~= strs_view(b@));
    true
}

fn strs_start_with(a: &[String], prefix: &[String]) -> (r: bool)
    requires
        prefix.len() <= a.len(),
    ensures
        r == (strs_view(a@).take(prefix.len() as int) == strs_view(prefix@)),
{
    let mut i: usize = 0;
    while i < prefix.len()
        invariant
            i <= prefix.len(),
            prefix.len() <= a.len(),
            forall|j: int| 0 <= j < i ==> a@[j]@ == prefix@[j]@,
        decreases prefix.len() - i,
    {
        if !str_eq(a[i].as_str(), prefix[i].as_str()) {
            assert(strs_view(a@).take(prefix.len() as int)[i as int] != strs_view(prefix@)[i as int]);
            return false;
        }
        i = i + 1;
    }
    assert(strs_view(a@).take(prefix.len() as int) =~= strs_view(prefix@));
    true
}

/// Resolve a key sequence against visible commands for the given host.
///
/// Returns the UUID of the first command whose `shortcut_keys` exactly matches
/// `keys`, considering only commands visible on `host_key`. When `host_key` is
/// `None`, all commands are candidates (the "All Hosts" view). Otherwise the
/// result is `Partial` when some candidate's sequence strictly extends `keys`.
pub fn resolve(commands: &[SavedCommand], keys: &[String], host_key: Option<&str>) -> (r: LeaderMatch)
    ensures
        ({
            let cmds = commands_view(commands@);
            let k = strs_view(keys@);
            let h = match host_key {
                Some(s) => Some(s@),
                None => None,
            };
            match first_complete(cmds, k, h) {
                Some(i) => r matches LeaderMatch::Complete(u) && u@ == cmds[i].uuid,
                None => if exists|j: int| 0 <= j < cmds.len() && extends(#[trigger] cmds[j], k, h) {
                    r == LeaderMatch::Partial
                } else {
                    r == LeaderMatch::NoMatch
                },
            }
        }),
{
    let ghost cmds = commands_view(commands@);
    let ghost k = strs_view(keys@);
    let ghost h = match host_key {
        Some(s) => Some(s@),
        None => None,
    };
    let mut has_partial = false;
    let mut i: usize = 0;
    while i < commands.len()
        invariant
            i <= commands.len(),
            cmds == commands_view(commands@),
            k == strs_view(keys@),
            h == (match host_key {
                Some(s) => Some(s@),
                None => None,
            }),
            first_complete(cmds.take(i as int), k, h) is None,
            has_partial == exists|j: int| 0 <= j < i && extends(#[trigger] cmds[j], k, h),
        decreases commands.len() - i,
    {
        let cmd = &commands[i];
        proof {
            assert(cmds.take(i + 1).drop_last() =~= cmds.take(i as int));
            assert(cmds.take(i + 1).last() == cmd@);
        }
        let visible = match host_key {
            Some(hk) => is_visible_on(cmd, hk),
            None => true,
        };
        if cmd.shortcut_keys.len() > 0 && visible {
            if strs_equal(cmd.shortcut_keys.as_slice(), keys) {
                proof {
                    lemma_first_complete_prefix(cmds, k, h, i as int + 1);
                }
                return LeaderMatch::Complete(cmd.uuid.clone());
            }
            if cmd.shortcut_keys.len() > keys.len() && strs_start_with(cmd.shortcut_keys.as_slice(), keys) {
                has_partial = true;
            }
        }
        i = i + 1;
    }
    proof {
        assert(cmds.take(commands@.len() as int) =~= cmds);
    }
    if has_partial {
        LeaderMatch::Partial
    } else {
        LeaderMatch::NoMatch
    }
}

/// The first complete match within a prefix is the first in the whole list.
proof fn lemma_first_complete_prefix(cmds: Seq<SavedCommandView>, keys: Seq<Seq<char>>, h: Option<Seq<char>>, n: int)
    requires
        0 <= n <= cmds.len(),
        first_complete(cmds.take(n), keys, h) is Some,
    ensures
        first_complete(cmds, keys, h) == first_complete(cmds.take(n), keys, h),
    decreases cmds.len() - n,
{
    if n < cmds.len() {
        assert(cmds.take(n + 1).drop_last() =~= cmds.take(n));
        lemma_first_complete_prefix(cmds, keys, h, n + 1);
    } else {
        assert(cmds.take(n) =~= cmds);
    }
}

/// A command that is hidden on the host, or has no sequence, takes no part
/// in resolution: it neither completes the keys nor keeps leader mode
/// waiting for more.
pub proof fn law_hidden_commands_never_match(c: SavedCommandView, keys: Seq<Seq<char>>, host: Seq<char>)
    requires
        c.shortcut_keys.len() == 0 || !visible_on(c.host_tags, host),
    ensures
        !completes(c, keys, Some(host)),
        !extends(c, keys, Some(host)),
{
}

/// Leader mode keeps waiting only for a command visible on the host whose
/// sequence starts with the keys typed so far and is longer.
pub proof fn law_partial_needs_visible_longer_sequence(c: SavedCommandView, keys: Seq<Seq<char>>, host: Seq<char>)
    requires
        extends(c, keys, Some(host)),
    ensures
        visible_on(c.host_tags, host),
        c.shortcut_keys.len() > keys.len(),
        c.shortcut_keys.take(keys.len() as int) == keys,
{
}

/// Adding a command that is hidden on the host changes neither the first
/// complete match nor whether some command extends the keys.
pub proof fn law_hidden_command_changes_nothing(
    cmds: Seq<SavedCommandView>,
    x: SavedCommandView,
    keys: Seq<Seq<char>>,
    host: Seq<char>,
)
    requires
        !visible_on(x.host_tags, host),
    ensures
        first_complete(cmds.push(x), keys, Some(host)) == first_complete(cmds, keys, Some(host)),
        (exists|j: int| 0 <= j < cmds.push(x).len() && extends(#[trigger] cmds.push(x)[j], keys, Some(host))) == (
        exists|j: int| 0 <= j < cmds.len() && extends(#[trigger] cmds[j], keys, Some(host))),
{
    let all = cmds.push(x);
    assert(all.drop_last() =~= cmds);
    if exists|j: int| 0 <= j < all.len() && extends(#[trigger] all[j], keys, Some(host)) {
        let j = choose|j: int| 0 <= j < all.len() && extends(#[trigger] all[j], keys, Some(host));
        assert(j < cmds.len());
        assert(cmds[j] == all[j]);
    }
    if exists|j: int| 0 <= j < cmds.len() && extends(#[trigger] cmds[j], keys, Some(host)) {
        let j = choose|j: int| 0 <= j < cmds.len() && extends(#[trigger] cmds[j], keys, Some(host));
        assert(all[j] == cmds[j]);
    }
}

} // verus!
