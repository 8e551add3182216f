//! Hosts: canonical identities of local and remote endpoints.

use vstd::prelude::*;

use crate::commands::{commands_view, SavedCommand, SavedCommandView};
use crate::places::{places_view, Place, PlaceView};
use crate::seqs::{keep, lemma_keep_take};
use crate::text::{
    chars_of, find_char, find_char_exec, list_contains, lower, lower_chars, opt_view, owned,
    rfind_char, rfind_char_exec, str_eq, string_from, strs_view, trim, trimmed, is_ws, trim_start, trim_end,
};

verus! {

/// Reserved host key for the local machine.
pub const LOCAL_KEY: &'static str = "local";

/// Whether a host represents the local machine or a remote endpoint.
#[derive(Debug, Clone, Copy, PartialEq, Eq, Structural)]
pub enum HostKind {
    Local,
    Remote,
}

/// Canonical identity for a local or remote endpoint.
///
/// All session, place, and command matching uses `key` — not display names.
#[derive(Debug, PartialEq, Eq)]
pub struct Host {
    pub key: String,
    pub name: String,
    pub kind: HostKind,
    pub ssh_target: Option<String>,
}

/// Mathematical model of a [`Host`].
pub struct HostView {
    pub key: Seq<char>,
    pub name: Seq<char>,
    pub kind: HostKind,
    pub ssh_target: Option<Seq<char>>,
}

impl View for Host {
    type V = HostView;

    open spec fn view(&self) -> HostView {
        HostView { key: self.key@, name: self.name@, kind: self.kind, ssh_target: opt_view(self.ssh_target) }
    }
}

impl Clone for Host {
    fn clone(&self) -> (r: Self)
        ensures
            r@ == self@,
    {
        Host { key: self.key.clone(), name: self.name.clone(), kind: self.kind, ssh_target: self.ssh_target.clone() }
    }
}

/// Views of a list of hosts.
pub open spec fn hosts_view(v: Seq<Host>) -> Seq<HostView> {
    v.map_values(|h: Host| h@)
}

/// The host portion of an ssh target: the last space-separated token,
/// without a `user@` prefix.
pub open spec fn strip_ssh_user(t: Seq<char>) -> Seq<char> {
    let tok = match rfind_char(t, ' ') {
        Some(p) => t.skip(p + 1),
        None => t,
    };
    match find_char(tok, '@') {
        Some(i) => tok.skip(i + 1),
        None => tok,
    }
}

/// The stable host key of an ssh target.
pub open spec fn normalize_key(ssh_target: Seq<char>) -> Seq<char> {
    lower(strip_ssh_user(trim(ssh_target)))
}

/// The part of `s` before its first `.`.
pub open spec fn before_dot(s: Seq<char>) -> Seq<char> {
    match find_char(s, '.') {
        Some(i) => s.take(i),
        None => s,
    }
}

/// The display name derived from an ssh target (short hostname).
pub open spec fn display_name(ssh_target: Seq<char>) -> Seq<char> {
    before_dot(strip_ssh_user(trim(ssh_target)))
}

/// The built-in local host.
pub open spec fn local_view() -> HostView {
    HostView { key: "local"@, name: "Local"@, kind: HostKind::Local, ssh_target: None }
}

fn strip_ssh_user_exec(t: &str) -> (r: &str)
    ensures
        r@ == strip_ssh_user(t@),
{
    let v = chars_of(t);
    let tok = match rfind_char_exec(v.as_slice(), ' ') {
        Some(p) => {
            assert(p < v.len());
            t.substring_char(p + 1, v.len())
        },
        None => t,
    };
    proof {
        if rfind_char(t@, ' ') is None {
        }
    }
    let w = chars_of(tok);
    match find_char_exec(w.as_slice(), '@') {
        Some(i) => {
            assert(i < w.len());
            tok.substring_char(i + 1, w.len())
        },
        None => tok,
    }
}

fn before_dot_exec(s: &str) -> (r: &str)
    ensures
        r@ == before_dot(s@),
{
    let v = chars_of(s);
    match find_char_exec(v.as_slice(), '.') {
        Some(i) => s.substring_char(0, i),
        None => s,
    }
}

impl Host {
    /// The built-in local host. Not persisted — always available.
    pub fn local() -> (h: Self)
        ensures
            h@ == local_view(),
    {
        Host { key: owned(LOCAL_KEY), name: owned("Local"), kind: HostKind::Local, ssh_target: None }
    }

    /// A remote host for an ssh target: keyed by the normalized target and
    /// named after its short hostname.
    pub fn remote(ssh_target: &str) -> (h: Self)
        ensures
            h@ == (HostView {
                key: normalize_key(ssh_target@),
                name: display_name(ssh_target@),
                kind: HostKind::Remote,
                ssh_target: Some(ssh_target@),
            }),
    {
        Host {
            key: normalize_ssh_key(ssh_target),
            name: display_name_from_ssh(ssh_target),
            kind: HostKind::Remote,
            ssh_target: Some(owned(ssh_target)),
        }
    }

    /// Whether this is the local machine.
    pub fn is_local(&self) -> (b: bool)
        ensures
            b == (self.kind == HostKind::Local),
    {
        self.kind == HostKind::Local
    }

    /// Whether this is a remote endpoint.
    pub fn is_remote(&self) -> (b: bool)
        ensures
            b == (self.kind == HostKind::Remote),
    {
        self.kind == HostKind::Remote
    }
}

/// Derive a stable host key from an ssh target: trim, strip options and the
/// `user@` prefix, lower-case.
pub fn normalize_ssh_key(ssh_target: &str) -> (k: String)
    ensures
        k@ == normalize_key(ssh_target@),
{
    let host_part = strip_ssh_user_exec(trimmed(ssh_target));
    let c = chars_of(host_part);
    let l = lower_chars(c.as_slice());
    string_from(l.as_slice())
}

/// Extract a display name (the short hostname) from an ssh target.
pub fn display_name_from_ssh(ssh_target: &str) -> (n: String)
    ensures
        n@ == display_name(ssh_target@),
{
    owned(before_dot_exec(strip_ssh_user_exec(trimmed(ssh_target))))
}

/// Items affected by deleting a host record.
#[derive(Debug, PartialEq, Eq)]
pub struct DeletionAffected {
    pub places: Vec<Place>,
    pub commands: Vec<SavedCommand>,
}

impl DeletionAffected {
    /// Whether nothing is affected.
    pub fn is_empty(&self) -> (b: bool)
        ensures
            b == (self.places@.len() == 0 && self.commands@.len() == 0),
    {
        self.places.len() == 0 && self.commands.len() == 0
    }
}

/// Place predicate: tagged with `key`.
pub open spec fn place_tagged(key: Seq<char>) -> spec_fn(PlaceView) -> bool {
    |p: PlaceView| p.host_tags.contains(key)
}

/// Command predicate: tagged with `key`.
pub open spec fn command_tagged(key: Seq<char>) -> spec_fn(SavedCommandView) -> bool {
    |c: SavedCommandView| c.host_tags.contains(key)
}

/// Places and commands that reference `host_key` in their tags, in order.
pub fn deletion_affected(host_key: &str, places: &[Place], commands: &[SavedCommand]) -> (d: DeletionAffected)
    ensures
        places_view(d.places@) == keep(places_view(places@), place_tagged(host_key@)),
        commands_view(d.commands@) == keep(commands_view(commands@), command_tagged(host_key@)),
{
    let mut ps: Vec<Place> = Vec::new();
    let mut i: usize = 0;
    while i < places.len()
        invariant
            i <= places.len(),
            places_view(ps@) == keep(places_view(places@).take(i as int), place_tagged(host_key@)),
        decreases places.len() - i,
    {
        let tagged = list_contains(places[i].host_tags.as_slice(), host_key);
        let ghost before = ps@;
        if tagged {
            ps.push(places[i].clone());
            assert(places_view(ps@) =~= places_view(before).push(places@[i as int]@));
        }
        proof {
            lemma_keep_take(places_view(places@), place_tagged(host_key@), i as int);
            assert(places_view(places@).take(i + 1) =~= places_view(places@.take(i + 1)));
        }
        i = i + 1;
    }
    assert(places_view(places@).take(places.len() as int) =~= places_view(places@));
    let mut cs: Vec<SavedCommand> = Vec::new();
    let mut j: usize = 0;
    while j < commands.len()
        invariant
            j <= commands.len(),
            commands_view(cs@) == keep(commands_view(commands@).take(j as int), command_tagged(host_key@)),
        decreases commands.len() - j,
    {
        let tagged = list_contains(commands[j].host_tags.as_slice(), host_key);
        let ghost before = cs@;
        if tagged {
            cs.push(commands[j].clone());
            assert(commands_view(cs@) =~= commands_view(before).push(commands@[j as int]@));
        }
        proof {
            lemma_keep_take(commands_view(commands@), command_tagged(host_key@), j as int);
        }
        j = j + 1;
    }
    assert(commands_view(commands@).take(commands.len() as int) =~= commands_view(commands@));
    DeletionAffected { places: ps, commands: cs }
}

/// Host predicate: its key differs from `key`.
pub open spec fn host_other_than(key: Seq<char>) -> spec_fn(HostView) -> bool {
    |h: HostView| h.key != key
}

/// Place predicate: its uuid is not listed.
pub open spec fn place_not_listed(uuids: Seq<Seq<char>>) -> spec_fn(PlaceView) -> bool {
    |p: PlaceView| !uuids.contains(p.uuid)
}

/// Command predicate: its uuid is not listed.
pub open spec fn command_not_listed(uuids: Seq<Seq<char>>) -> spec_fn(SavedCommandView) -> bool {
    |c: SavedCommandView| !uuids.contains(c.uuid)
}

/// Remove the given place and command uuids and the host itself.
///
/// Returns the updated `(hosts, places, commands)`.
pub fn apply_deletion_cleanup(
    host_key: &str,
    hosts: &[Host],
    places: &[Place],
    commands: &[SavedCommand],
    place_uuids_to_delete: &[String],
    command_uuids_to_delete: &[String],
) -> (r: (Vec<Host>, Vec<Place>, Vec<SavedCommand>))
    ensures
        hosts_view(r.0@) == keep(hosts_view(hosts@), host_other_than(host_key@)),
        places_view(r.1@) == keep(places_view(places@), place_not_listed(strs_view(place_uuids_to_delete@))),
        commands_view(r.2@) == keep(commands_view(commands@), command_not_listed(strs_view(command_uuids_to_delete@))),
{
    let mut hs: Vec<Host> = Vec::new();
    let mut i: usize = 0;
    while i < hosts.len()
        invariant
            i <= hosts.len(),
            hosts_view(hs@) == keep(hosts_view(hosts@).take(i as int), host_other_than(host_key@)),
        decreases hosts.len() - i,
    {
        let same = str_eq(hosts[i].key.as_str(), host_key);
        let ghost before = hs@;
        if !same {
            hs.push(hosts[i].clone());
            assert(hosts_view(hs@) =~= hosts_view(before).push(hosts@[i as int]@));
        }
        proof {
            lemma_keep_take(hosts_view(hosts@), host_other_than(host_key@), i as int);
        }
        i = i + 1;
    }
    assert(hosts_view(hosts@).take(hosts.len() as int) =~= hosts_view(hosts@));
    let mut ps: Vec<Place> = Vec::new();
    let mut j: usize = 0;
    while j < places.len()
        invariant
            j <= places.len(),
            places_view(ps@) == keep(places_view(places@).take(j as int), place_not_listed(strs_view(place_uuids_to_delete@))),
        decreases places.len() - j,
    {
        let listed = list_contains(place_uuids_to_delete, places[j].uuid.as_str());
        let ghost before = ps@;
        if !listed {
            ps.push(places[j].clone());
            assert(places_view(ps@) =~= places_view(before).push(places@[j as int]@));
        }
        proof {
            lemma_keep_take(places_view(places@), place_not_listed(strs_view(place_uuids_to_delete@)), j as int);
        }
        j = j + 1;
    }
    assert(places_view(places@).take(places.len() as int) =~= places_view(places@));
    let mut cs: Vec<SavedCommand> = Vec::new();
    let mut k: usize = 0;
    while k < commands.len()
        invariant
            k <= commands.len(),
            commands_view(cs@) == keep(commands_view(commands@).take(k as int), command_not_listed(strs_view(command_uuids_to_delete@))),
        decreases commands.len() - k,
    {
        let listed = list_contains(command_uuids_to_delete, commands[k].uuid.as_str());
        let ghost before = cs@;
        if !listed {
            cs.push(commands[k].clone());
            assert(commands_view(cs@) =~= commands_view(before).push(commands@[k as int]@));
        }
        proof {
            lemma_keep_take(commands_view(commands@), command_not_listed(strs_view(command_uuids_to_delete@)), k as int);
        }
        k = k + 1;
    }
    assert(commands_view(commands@).take(commands.len() as int) =~= commands_view(commands@));
    (hs, ps, cs)
}

/// Index of the first saved host with key `k`.
pub open spec fn first_host_with_key(saved: Seq<HostView>, k: Seq<char>) -> Option<int> {
    if exists|i: int| 0 <= i < saved.len() && saved[i].key == k {
        Some(choose|i: int| 0 <= i < saved.len() && saved[i].key == k && forall|j: int| 0 <= j < i ==> saved[j].key != k)
    } else {
        None
    }
}

/// The host `resolve` returns for `key`.
pub open spec fn resolve_spec(key: Seq<char>, saved: Seq<HostView>) -> HostView {
    match first_host_with_key(saved, key) {
        Some(i) => saved[i],
        None => if key == "local"@ {
            local_view()
        } else {
            HostView { key: key, name: before_dot(key), kind: HostKind::Remote, ssh_target: Some(key) }
        },
    }
}

/// Resolve a host key: a saved host with that key first, then the built-in
/// local host, else an ad-hoc remote host whose key is its ssh target.
pub fn resolve(key: &str, saved: &[Host]) -> (h: Host)
    ensures
        h@ == resolve_spec(key@, hosts_view(saved@)),
{
    let mut i: usize = 0;
    while i < saved.len()
        invariant
            i <= saved.len(),
            forall|j: int| 0 <= j < i ==> saved@[j].key@ != key@,
        decreases saved.len() - i,
    {
        if str_eq(saved[i].key.as_str(), key) {
            proof {
                let hv = hosts_view(saved@);
                assert(hv[i as int].key == key@);
                let w = choose|q: int| 0 <= q < hv.len() && hv[q].key == key@ && forall|j: int| 0 <= j < q ==> hv[j].key != key@;
                if w < i {
                    assert(hv[w].key == saved@[w].key@);
                }
                if w > i {
                    assert(hv[i as int].key == key@);
                }
            }
            return saved[i].clone();
        }
        i = i + 1;
    }
    proof {
        let hv = hosts_view(saved@);
        assert forall|q: int| 0 <= q < hv.len() implies hv[q].key != key@ by {
            assert(hv[q].key == saved@[q].key@);
        }
    }
    if str_eq(key, LOCAL_KEY) {
        return Host::local();
    }
    Host {
        key: owned(key),
        name: owned(before_dot_exec(key)),
        kind: HostKind::Remote,
        ssh_target: Some(owned(key)),
    }
}

/// Text with no whitespace and no `@`: a host name or a user name.
pub open spec fn plain_word(w: Seq<char>) -> bool {
    forall|i: int| 0 <= i < w.len() ==> !is_ws(#[trigger] w[i]) && w[i] != '@'
}

/// Leading whitespace is dropped up to the first non-space at or before `j`.
proof fn trim_start_index(s: Seq<char>, j: int) -> (k: int)
    requires
        0 <= j < s.len(),
        !is_ws(s[j]),
    ensures
        0 <= k <= j,
        trim_start(s) == s.skip(k),
    decreases j,
{
    if is_ws(s[0]) {
        let rest = s.subrange(1, s.len() as int);
        assert(rest[j - 1] == s[j]);
        let k1 = trim_start_index(rest, j - 1);
        assert(rest.skip(k1) =~= s.skip(k1 + 1));
        k1 + 1
    } else {
        assert(s.skip(0) =~= s);
        0
    }
}

/// The user part and the host of `u@h` after any text ending in a space:
/// the key part is the host.
proof fn lemma_strip_user(pre: Seq<char>, u: Seq<char>, h: Seq<char>)
    requires
        plain_word(u),
        plain_word(h),
        pre.len() == 0 || pre.last() == ' ',
    ensures
        strip_ssh_user(pre + u + seq!['@'] + h) == h,
{
    let t = pre + u + seq!['@'] + h;
    let tail = u + seq!['@'] + h;
    assert forall|i: int| 0 <= i < tail.len() implies tail[i] != ' ' by {
        if i < u.len() {
            assert(tail[i] == u[i]);
        } else if i > u.len() {
            assert(tail[i] == h[i - u.len() - 1]);
        }
    }
    let tok = if pre.len() == 0 {
        assert(t =~= tail);
        if exists|i: int| 0 <= i < t.len() && t[i] == ' ' {
            let i = choose|i: int| 0 <= i < t.len() && t[i] == ' ';
            assert(false);
        }
        assert(rfind_char(t, ' ') is None);
        t
    } else {
        let p = pre.len() - 1;
        assert(t[p] == ' ');
        assert forall|j: int| p < j < t.len() implies t[j] != ' ' by {
            assert(t[j] == tail[j - pre.len()]);
        }
        let r = rfind_char(t, ' ');
        assert(r == Some(p)) by {
            assert(0 <= p < t.len() && t[p] == ' ' && forall|j: int| p < j < t.len() ==> t[j] != ' ');
            let q = choose|q: int| 0 <= q < t.len() && t[q] == ' ' && forall|j: int| q < j < t.len() ==> t[j] != ' ';
            if q < p {
                assert(t[p] != ' ');
            }
            if q > p {
                assert(t[q] != ' ');
            }
        }
        assert(t.skip(p + 1) =~= tail);
        tail
    };
    assert(tok == tail);
    let a = u.len() as int;
    assert(tail[a] == '@');
    assert forall|j: int| 0 <= j < a implies tail[j] != '@' by {
        assert(tail[j] == u[j]);
    }
    assert(find_char(tail, '@') == Some(a)) by {
        let q = choose|q: int| 0 <= q < tail.len() && tail[q] == '@' && forall|j: int| 0 <= j < q ==> tail[j] != '@';
        if q > a {
            assert(tail[a] != '@');
        }
        if q < a {
            assert(tail[q] == u[q]);
        }
    }
    assert(tail.skip(a + 1) =~= h);
}

/// A plain text is its own trimmed form when it starts and ends with a
/// non-space.
proof fn lemma_trim_plain(t: Seq<char>)
    requires
        t.len() > 0,
        !is_ws(t[0]),
        !is_ws(t.last()),
    ensures
        trim(t) == t,
{
    assert(trim_start(t) == t);
}

/// The key of `user@host` is the lower-cased host.
proof fn lemma_key_with_user(u: Seq<char>, h: Seq<char>)
    requires
        plain_word(u),
        plain_word(h),
        h.len() > 0,
    ensures
        normalize_key(u + seq!['@'] + h) == lower(h),
{
    let a = u + seq!['@'] + h;
    assert(!is_ws(h[0]));
    assert(!is_ws(h.last()));
    assert(a.last() == h.last());
    if u.len() > 0 {
        assert(a[0] == u[0]);
    } else {
        assert(a[0] == '@');
    }
    lemma_trim_plain(a);
    lemma_strip_user(Seq::empty(), u, h);
    assert(Seq::<char>::empty() + u + seq!['@'] + h =~= a);
}

/// The key of a bare host is the lower-cased host.
proof fn lemma_key_plain(h: Seq<char>)
    requires
        plain_word(h),
        h.len() > 0,
    ensures
        normalize_key(h) == lower(h),
{
    assert(!is_ws(h[0]));
    assert(!is_ws(h.last()));
    lemma_trim_plain(h);
    assert(rfind_char(h, ' ') is None) by {
        if exists|i: int| 0 <= i < h.len() && h[i] == ' ' {
            let i = choose|i: int| 0 <= i < h.len() && h[i] == ' ';
            assert(is_ws(h[i]));
        }
    }
    assert(find_char(h, '@') is None) by {
        if exists|i: int| 0 <= i < h.len() && h[i] == '@' {
            let i = choose|i: int| 0 <= i < h.len() && h[i] == '@';
            assert(h[i] != '@');
        }
    }
}

/// The trimmed form of `  options user@host  `: the options' tail (if
/// any survives trimming) ending in a space, then `user@host`.
proof fn lemma_trim_with_options(u: Seq<char>, h: Seq<char>, opts: Seq<char>) -> (pre2: Seq<char>)
    requires
        plain_word(u),
        plain_word(h),
        h.len() > 0,
    ensures
        pre2.len() == 0 || pre2.last() == ' ',
        trim(seq![' ', ' '] + opts + seq![' '] + u + seq!['@'] + h + seq![' ', ' ']) == pre2 + u + seq!['@'] + h,
{
    let a = u + seq!['@'] + h;
    let pre = seq![' ', ' '] + opts + seq![' '];
    let s = pre + a + seq![' ', ' '];
    assert(s =~= seq![' ', ' '] + opts + seq![' '] + u + seq!['@'] + h + seq![' ', ' ']);
    let j = pre.len() as int;
    if u.len() > 0 {
        assert(a[0] == u[0]);
    } else {
        assert(a[0] == '@');
    }
    assert(s[j] == a[0]);
    let k = trim_start_index(s, j);
    let st = s.skip(k);
    let core = s.subrange(k, s.len() - 2);
    assert(st.drop_last().drop_last() =~= core);
    assert(st.drop_last() =~= core.push(' '));
    assert(st =~= core.push(' ').push(' '));
    assert(core.last() == h.last());
    assert(!is_ws(h.last()));
    assert(core.push(' ').drop_last() =~= core);
    assert(core.push(' ').push(' ').drop_last() =~= core.push(' '));
    assert(trim_end(core) == core);
    assert(trim_end(core.push(' ')) == trim_end(core));
    assert(trim_end(st) == trim_end(core.push(' ')));
    let pre2 = pre.skip(k);
    assert(core =~= pre2 + u + seq!['@'] + h);
    if pre2.len() > 0 {
        assert(pre2.last() == pre.last());
    }
    pre2
}

/// The key of an ssh target ignores the user part, leading options,
/// surrounding whitespace and letter case: `user@host`, `host` and
/// `  options user@host  ` all give the lower-cased host.
pub proof fn law_ssh_key_ignores_user_and_options(u: Seq<char>, h: Seq<char>, opts: Seq<char>)
    requires
        plain_word(u),
        plain_word(h),
        h.len() > 0,
    ensures
        normalize_key(u + seq!['@'] + h) == lower(h),
        normalize_key(h) == lower(h),
        normalize_key(seq![' ', ' '] + opts + seq![' '] + u + seq!['@'] + h + seq![' ', ' ']) == lower(h),
{
    lemma_key_with_user(u, h);
    lemma_key_plain(h);
    let pre2 = lemma_trim_with_options(u, h, opts);
    lemma_strip_user(pre2, u, h);
}

} // verus!
