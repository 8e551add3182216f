//! The host tag picker: which host keys a place or command is scoped to.

use vstd::prelude::*;

use crate::host::{Host, HostView, LOCAL_KEY};
use crate::seqs::{keep, lemma_keep_take};
use crate::text::{list_contains, owned, str_eq, strs_view};

verus! {

/// The keys of the checked rows, in row order.
pub open spec fn selected_keys(pairs: Seq<(String, bool)>) -> Seq<Seq<char>> {
    strs_view(keep(pairs, |p: (String, bool)| p.1).map_values(|p: (String, bool)| p.0))
}

/// The keys whose check box is active, in the order given.
pub fn collect_selected(pairs: &[(String, bool)]) -> (r: Vec<String>)
    ensures
        strs_view(r@) == selected_keys(pairs@),
{
    let ghost active = |p: (String, bool)| p.1;
    let ghost key = |p: (String, bool)| p.0;
    let mut out: Vec<String> = Vec::new();
    let mut i: usize = 0;
    while i < pairs.len()
        invariant
            i <= pairs@.len(),
            active == (|p: (String, bool)| p.1),
            key == (|p: (String, bool)| p.0),
            out@ == keep(pairs@.take(i as int), active).map_values(key),
        decreases pairs@.len() - i,
    {
        let ghost t1 = pairs@.take(i + 1);
        assert(t1.drop_last() =~= pairs@.take(i as int));
        if pairs[i].1 {
            out.push(pairs[i].0.clone());
        }
        assert(out@ =~= keep(t1, active).map_values(key));
        i = i + 1;
    }
    assert(pairs@.take(pairs@.len() as int) =~= pairs@);
    out
}

/// One row of the picker: a host key, its label, and whether it starts
/// checked.
#[derive(Debug, Clone, PartialEq, Eq)]
pub struct PickerRow {
    pub key: String,
    pub label: String,
    pub checked: bool,
}

/// Mathematical model of a [`PickerRow`].
pub struct PickerRowView {
    pub key: Seq<char>,
    pub label: Seq<char>,
    pub checked: bool,
}

impl View for PickerRow {
    type V = PickerRowView;

    open spec fn view(&self) -> PickerRowView {
        PickerRowView { key: self.key@, label: self.label@, checked: self.checked }
    }
}

/// The row of a saved host.
pub open spec fn host_row(h: HostView, selected: Seq<Seq<char>>) -> PickerRowView {
    PickerRowView { key: h.key, label: h.name, checked: selected.contains(h.key) }
}

/// The picker's rows: the local machine first, labelled "Local", then
/// every saved host but a local one, in order; a row starts checked when
/// its key is among the selected tags.
pub open spec fn picker_rows_spec(hosts: Seq<HostView>, selected: Seq<Seq<char>>) -> Seq<PickerRowView> {
    seq![PickerRowView { key: LOCAL_KEY@, label: "Local"@, checked: selected.contains(LOCAL_KEY@) }] + keep(
        hosts,
        |h: HostView| h.key != LOCAL_KEY@,
    ).map_values(|h: HostView| host_row(h, selected))
}

/// The rows of a host tag picker over the saved hosts, with
/// `selected_tags` checked.
pub fn picker_rows(saved_hosts: &[Host], selected_tags: &[String]) -> (r: Vec<PickerRow>)
    ensures
        r@.map_values(|p: PickerRow| p@) == picker_rows_spec(
            saved_hosts@.map_values(|h: Host| h@),
            strs_view(selected_tags@),
        ),
{
    let ghost hv = saved_hosts@.map_values(|h: Host| h@);
    let ghost sel = strs_view(selected_tags@);
    let ghost remote = |h: HostView| h.key != LOCAL_KEY@;
    let ghost row = |h: HostView| host_row(h, sel);
    let mut rows: Vec<PickerRow> = Vec::new();
    rows.push(
        PickerRow { key: owned(LOCAL_KEY), label: owned("Local"), checked: list_contains(selected_tags, LOCAL_KEY) },
    );
    let mut i: usize = 0;
    assert(rows@.map_values(|p: PickerRow| p@) =~= seq![
        PickerRowView { key: LOCAL_KEY@, label: "Local"@, checked: sel.contains(LOCAL_KEY@) },
    ] + keep(hv.take(0), remote).map_values(row));
    while i < saved_hosts.len()
        invariant
            i <= saved_hosts@.len(),
            hv == saved_hosts@.map_values(|h: Host| h@),
            sel == strs_view(selected_tags@),
            remote == (|h: HostView| h.key != LOCAL_KEY@),
            row == (|h: HostView| host_row(h, sel)),
            rows@.map_values(|p: PickerRow| p@) == seq![
                PickerRowView { key: LOCAL_KEY@, label: "Local"@, checked: sel.contains(LOCAL_KEY@) },
            ] + keep(hv.take(i as int), remote).map_values(row),
        decreases saved_hosts@.len() - i,
    {
        proof {
            lemma_keep_take(hv, remote, i as int);
        }
        let h = &saved_hosts[i];
        let ghost before = rows@;
        if !str_eq(h.key.as_str(), LOCAL_KEY) {
            rows.push(PickerRow { key: h.key.clone(), label: h.name.clone(), checked: list_contains(selected_tags, h.key.as_str()) });
            assert(rows@.map_values(|p: PickerRow| p@) =~= before.map_values(|p: PickerRow| p@).push(row(hv[i as int])));
        }
        i = i + 1;
        assert(rows@.map_values(|p: PickerRow| p@) =~= seq![
            PickerRowView { key: LOCAL_KEY@, label: "Local"@, checked: sel.contains(LOCAL_KEY@) },
        ] + keep(hv.take(i as int), remote).map_values(row));
    }
    assert(hv.take(saved_hosts@.len() as int) =~= hv);
    rows
}

} // verus!
