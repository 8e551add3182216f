//! Sectioned lists of the pickers: the items a search shows, in order,
//! each group introduced by its header before its first shown item.

use vstd::prelude::*;

verus! {

/// A row of a sectioned list.
#[derive(Debug, Clone, Copy, PartialEq, Eq, Structural)]
pub enum ListRow {
    /// The header of the first group (`true`) or of the second.
    Header(bool),
    /// The item at this position of the listed items.
    Item(usize),
}

/// Some item before position `i` is shown and belongs to group `g`.
pub open spec fn shown_before(shown: Seq<bool>, group: Seq<bool>, i: int, g: bool) -> bool {
    exists|j: int| 0 <= j < i && #[trigger] shown[j] && group[j] == g
}

/// The rows for the first `n` items: each shown item in order, preceded
/// by its group's header when it is the first shown item of its group.
pub open spec fn rows_upto(shown: Seq<bool>, group: Seq<bool>, n: nat) -> Seq<ListRow>
    decreases n,
{
    if n == 0 {
        Seq::empty()
    } else {
        let i = (n - 1) as nat;
        let prev = rows_upto(shown, group, i);
        if !shown[i as int] {
            prev
        } else if shown_before(shown, group, i as int, group[i as int]) {
            prev.push(ListRow::Item(i as usize))
        } else {
            prev.push(ListRow::Header(group[i as int])).push(ListRow::Item(i as usize))
        }
    }
}

/// The rows of a list whose items are `shown` or hidden by the search and
/// belong to the first group or not (`in_first`).
pub fn sectioned_rows(shown: &[bool], in_first: &[bool]) -> (r: Vec<ListRow>)
    requires
        shown@.len() == in_first@.len(),
    ensures
        r@ == rows_upto(shown@, in_first@, shown@.len()),
{
    let mut rows: Vec<ListRow> = Vec::new();
    let mut has_first = false;
    let mut has_second = false;
    let mut i: usize = 0;
    while i < shown.len()
        invariant
            i <= shown@.len(),
            shown@.len() == in_first@.len(),
            rows@ == rows_upto(shown@, in_first@, i as nat),
            has_first == shown_before(shown@, in_first@, i as int, true),
            has_second == shown_before(shown@, in_first@, i as int, false),
        decreases shown@.len() - i,
    {
        if shown[i] {
            let first = in_first[i];
            let seen = if first {
                has_first
            } else {
                has_second
            };
            if !seen {
                rows.push(ListRow::Header(first));
            }
            rows.push(ListRow::Item(i));
            if first {
                has_first = true;
            } else {
                has_second = true;
            }
        }
        proof {
            assert(shown_before(shown@, in_first@, i + 1, true) == (has_first));
            assert(shown_before(shown@, in_first@, i + 1, false) == (has_second)) by {
                if shown_before(shown@, in_first@, i + 1, false) {
                    let j = choose|j: int| 0 <= j < i + 1 && #[trigger] shown@[j] && in_first@[j] == false;
                    if j < i {
                        assert(shown_before(shown@, in_first@, i as int, false));
                    }
                }
            }
        }
        i = i + 1;
    }
    rows
}

} // verus!
