//! Classification of daemon workspaces for the "Connect to Existing" view.

use vstd::prelude::*;

use crate::ids::{uuid_text, uuid_text_from_bytes};
use crate::text::{
    chars_of, contains, contains_chars, dec, owned, push_decimal, str_eq, strs_view, to_lowercase, trim, trimmed,
    unicode_lowercase,
};

use crate::listing::{rows_upto, sectioned_rows, ListRow};

verus! {

pub const DIALOG_CONTENT_WIDTH: i32 = 400;
pub const DIALOG_CONTENT_HEIGHT: i32 = 450;
pub const SCROLL_MIN_CONTENT_HEIGHT: i32 = 300;

/// Classification of a daemon workspace.
#[derive(Debug, Clone, Copy, PartialEq, Eq, Structural)]
pub enum RuntimeAvailability {
    /// Can be attached by this client.
    Available,
    /// Already open in this client window.
    AlreadyOpen,
    /// Owned by another client.
    BusyElsewhere,
}

/// A workspace entry for display.
#[derive(Debug, Clone, PartialEq, Eq)]
pub struct RuntimeEntry {
    pub id: String,
    pub name: String,
    pub pane_count: u32,
    pub availability: RuntimeAvailability,
    pub status_label: String,
}

/// What the daemon reports of one of its workspaces.
#[derive(Debug, Clone, PartialEq, Eq)]
pub struct WorkspaceInfo {
    /// The runtime id as 16 UUID bytes.
    pub id: Vec<u8>,
    pub name: String,
    pub pane_count: u32,
    pub has_write_owner: bool,
}

/// Availability of a workspace with text id `id`.
pub open spec fn availability_of(id: Seq<char>, has_write_owner: bool, open: Seq<Seq<char>>) -> RuntimeAvailability {
    if open.contains(id) {
        RuntimeAvailability::AlreadyOpen
    } else if has_write_owner {
        RuntimeAvailability::BusyElsewhere
    } else {
        RuntimeAvailability::Available
    }
}

/// The status line of an entry.
pub open spec fn status_label_of(a: RuntimeAvailability, pane_count: u32) -> Seq<char> {
    match a {
        RuntimeAvailability::Available => dec(pane_count as nat) + " "@ + if pane_count == 1 {
            "pane"@
        } else {
            "panes"@
        },
        RuntimeAvailability::AlreadyOpen => "Already open"@,
        RuntimeAvailability::BusyElsewhere => "Connected elsewhere"@,
    }
}

/// Whether `e` is the entry for workspace `w`.
pub open spec fn entry_for(e: RuntimeEntry, w: WorkspaceInfo, open: Seq<Seq<char>>) -> bool {
    let id = uuid_text(w.id@);
    let a = availability_of(id, w.has_write_owner, open);
    &&& e.id@ == id
    &&& e.name@ == w.name@
    &&& e.pane_count == w.pane_count
    &&& e.availability == a
    &&& e.status_label@ == status_label_of(a, w.pane_count)
}

/// The workspaces with a well-formed (16-byte) id, in order.
pub open spec fn with_valid_ids(ws: Seq<WorkspaceInfo>) -> Seq<WorkspaceInfo>
    decreases ws.len(),
{
    if ws.len() == 0 {
        Seq::empty()
    } else if ws.last().id@.len() == 16 {
        with_valid_ids(ws.drop_last()).push(ws.last())
    } else {
        with_valid_ids(ws.drop_last())
    }
}

fn list_has(v: &[String], s: &str) -> (b: bool)
    ensures
        b == strs_view(v@).contains(s@),
{
    let mut i: usize = 0;
    while i < v.len()
        invariant
            i <= v.len(),
            forall|j: int| 0 <= j < i ==> v@[j]@ != s@,
        decreases v.len() - i,
    {
        if str_eq(v[i].as_str(), s) {
            assert(strs_view(v@)[i as int] == s@);
            return true;
        }
        i = i + 1;
    }
    proof {
        if strs_view(v@).contains(s@) {
            let q = choose|q: int| 0 <= q < strs_view(v@).len() && strs_view(v@)[q] == s@;
            assert(v@[q]@ == s@);
        }
    }
    false
}

/// Classify daemon workspaces into available/busy entries, in order;
/// workspaces whose id is not a UUID are left out.
///
/// `open_runtime_ids` contains runtime ids already attached by this client.
pub fn classify_workspaces(workspaces: &[WorkspaceInfo], open_runtime_ids: &[String]) -> (r: Vec<RuntimeEntry>)
    ensures
        r@.len() == with_valid_ids(workspaces@).len(),
        forall|i: int|
            0 <= i < r@.len() ==> entry_for(#[trigger] r@[i], with_valid_ids(workspaces@)[i], strs_view(open_runtime_ids@)),
{
    let ghost open = strs_view(open_runtime_ids@);
    let mut r: Vec<RuntimeEntry> = Vec::new();
    let mut k: usize = 0;
    while k < workspaces.len()
        invariant
            k <= workspaces.len(),
            open == strs_view(open_runtime_ids@),
            r@.len() == with_valid_ids(workspaces@.take(k as int)).len(),
            forall|i: int| 0 <= i < r@.len() ==> entry_for(#[trigger] r@[i], with_valid_ids(workspaces@.take(k as int))[i], open),
        decreases workspaces.len() - k,
    {
        let info = &workspaces[k];
        proof {
            assert(workspaces@.take(k + 1).drop_last() =~= workspaces@.take(k as int));
            assert(workspaces@.take(k + 1).last() == *info);
        }
        match uuid_text_from_bytes(info.id.as_slice()) {
            Some(id) => {
                let availability = if list_has(open_runtime_ids, id.as_str()) {
                    RuntimeAvailability::AlreadyOpen
                } else if info.has_write_owner {
                    RuntimeAvailability::BusyElsewhere
                } else {
                    RuntimeAvailability::Available
                };
                let status_label = match availability {
                    RuntimeAvailability::Available => {
                        let mut s = String::new();
                        push_decimal(&mut s, info.pane_count as u64);
                        let ghost digits = dec(info.pane_count as nat);
                        assert(s@ =~= digits);
                        proof {
                            reveal_strlit(" pane");
                            reveal_strlit(" panes");
                            reveal_strlit(" ");
                            reveal_strlit("pane");
                            reveal_strlit("panes");
                        }
                        if info.pane_count == 1 {
                            s.append(" pane");
                            assert(s@ =~= digits + " "@ + "pane"@);
                        } else {
                            s.append(" panes");
                            assert(s@ =~= digits + " "@ + "panes"@);
                        }
                        s
                    },
                    RuntimeAvailability::AlreadyOpen => owned("Already open"),
                    RuntimeAvailability::BusyElsewhere => owned("Connected elsewhere"),
                };
                let ghost before = r@;
                r.push(RuntimeEntry {
                    id,
                    name: info.name.clone(),
                    pane_count: info.pane_count,
                    availability,
                    status_label,
                });
                proof {
                    let t = with_valid_ids(workspaces@.take(k + 1));
                    assert(t == with_valid_ids(workspaces@.take(k as int)).push(*info));
                    assert forall|i: int| 0 <= i < r@.len() implies entry_for(#[trigger] r@[i], t[i], open) by {
                        if i < before.len() {
                            assert(r@[i] == before[i]);
                        } else {
                            assert(t[i] == *info);
                        }
                    }
                }
            },
            None => {},
        }
        k = k + 1;
    }
    proof {
        assert(workspaces@.take(workspaces@.len() as int) =~= workspaces@);
    }
    r
}

/// Whether an entry matches a search query: a blank query matches all,
/// otherwise the lower-cased name must contain the lower-cased trimmed
/// query.
pub fn matches_query(entry: &RuntimeEntry, query: &str) -> (b: bool)
    ensures
        b == (unicode_lowercase(trim(query@)).len() == 0 || contains(
            unicode_lowercase(entry.name@),
            unicode_lowercase(trim(query@)),
        )),
{
    let q = to_lowercase(trimmed(query));
    if q.unicode_len() == 0 {
        return true;
    }
    let name = to_lowercase(entry.name.as_str());
    let hay = chars_of(name.as_str());
    let needle = chars_of(q.as_str());
    contains_chars(hay.as_slice(), needle.as_slice())
}

/// Whether an entry is listed for a search query.
pub open spec fn entry_matches(entry: RuntimeEntry, query: Seq<char>) -> bool {
    unicode_lowercase(trim(query)).len() == 0 || contains(unicode_lowercase(entry.name@), unicode_lowercase(trim(query)))
}

/// The rows of the workspace list for a search: the matching entries in
/// order, the attachable ones under an "Available" header (`Header(true)`)
/// and the others under a "Busy" header (`Header(false)`), each header
/// before the first row of its group. No rows means nothing was found.
pub fn session_rows(entries: &[RuntimeEntry], query: &str) -> (r: Vec<ListRow>)
    ensures
        r@ == rows_upto(
            Seq::new(entries@.len(), |i: int| entry_matches(entries@[i], query@)),
            Seq::new(entries@.len(), |i: int| entries@[i].availability == RuntimeAvailability::Available),
            entries@.len(),
        ),
{
    let mut shown: Vec<bool> = Vec::new();
    let mut available: Vec<bool> = Vec::new();
    let mut i: usize = 0;
    while i < entries.len()
        invariant
            i <= entries@.len(),
            shown@ == Seq::new(i as nat, |k: int| entry_matches(entries@[k], query@)),
            available@ == Seq::new(i as nat, |k: int| entries@[k].availability == RuntimeAvailability::Available),
        decreases entries@.len() - i,
    {
        shown.push(matches_query(&entries[i], query));
        available.push(entries[i].availability == RuntimeAvailability::Available);
        i = i + 1;
        assert(shown@ =~= Seq::new(i as nat, |k: int| entry_matches(entries@[k], query@)));
        assert(available@ =~= Seq::new(i as nat, |k: int| entries@[k].availability == RuntimeAvailability::Available));
    }
    sectioned_rows(shown.as_slice(), available.as_slice())
}

/// The header text of a workspace list section.
pub fn session_section_title(available: bool) -> (t: &'static str)
    ensures
        t@ == if available {
            "Available"@
        } else {
            "Busy"@
        },
{
    if available {
        "Available"
    } else {
        "Busy"
    }
}

/// The icon of a workspace row.
pub fn session_icon_name(available: bool) -> (t: &'static str)
    ensures
        t@ == if available {
            "media-playback-start-symbolic"@
        } else {
            "changes-prevent-symbolic"@
        },
{
    if available {
        "media-playback-start-symbolic"
    } else {
        "changes-prevent-symbolic"
    }
}

/// The notice shown when a search lists no workspace.
pub const NO_SESSIONS_FOUND: &'static str = "No sessions found";

} // verus!
