//! Places: saved directory targets scoped to hosts.

use vstd::prelude::*;

use crate::commands::visible_on;
use crate::ids::{is_hyphenated_uuid, new_uuid};
use crate::text::{
    chars_of, contains_ci, contains_ci_exec, list_contains, lower, lower_chars, opt_view, owned, push_char,
    str_eq, string_from, strs_view, trim, trimmed,
};
use crate::commands::clone_strings;
use crate::listing::{rows_upto, sectioned_rows, ListRow};
use crate::text::{contains, lemma_lower_idempotent, lemma_trim_lower, matches_at, occurs_at};

verus! {

/// A saved navigation target — a directory path scoped to one or more hosts.
#[derive(Debug, PartialEq, Eq)]
pub struct Place {
    pub uuid: String,
    pub name: String,
    pub path: String,
    /// Host keys this place is scoped to. Empty means global.
    pub host_tags: Vec<String>,
}

/// Mathematical model of a [`Place`].
pub struct PlaceView {
    pub uuid: Seq<char>,
    pub name: Seq<char>,
    pub path: Seq<char>,
    pub host_tags: Seq<Seq<char>>,
}

impl View for Place {
    type V = PlaceView;

    open spec fn view(&self) -> PlaceView {
        PlaceView {
            uuid: self.uuid@,
            name: self.name@,
            path: self.path@,
            host_tags: strs_view(self.host_tags@),
        }
    }
}

impl Clone for Place {
    fn clone(&self) -> (r: Self)
        ensures
            r@ == self@,
    {
        Place {
            uuid: self.uuid.clone(),
            name: self.name.clone(),
            path: self.path.clone(),
            host_tags: clone_strings(&self.host_tags),
        }
    }
}

/// Views of a list of places.
pub open spec fn places_view(v: Seq<Place>) -> Seq<PlaceView> {
    v.map_values(|p: Place| p@)
}

/// The last path component of `s` that is neither empty nor `.`
/// (trailing separators and `.` components are skipped, as `Path` does).
pub open spec fn last_component(s: Seq<char>) -> Option<Seq<char>>
    decreases s.len(),
{
    if s.len() == 0 {
        None
    } else if s.last() == '/' {
        last_component(s.drop_last())
    } else {
        match crate::text::rfind_char(s, '/') {
            Some(p) => if s.skip(p + 1) == seq!['.'] {
                if 0 <= p < s.len() {
                    last_component(s.take(p))
                } else {
                    None
                }
            } else {
                Some(s.skip(p + 1))
            },
            None => if s == seq!['.'] {
                None
            } else {
                Some(s)
            },
        }
    }
}

/// `Path::file_name`: the last component when it is a normal name.
pub open spec fn file_name(s: Seq<char>) -> Option<Seq<char>> {
    match last_component(s) {
        Some(c) => if c == seq!['.', '.'] {
            None
        } else {
            Some(c)
        },
        None => None,
    }
}

/// The label shown for a place.
pub open spec fn display_label_spec(p: PlaceView) -> Seq<char> {
    if p.name == p.path || p.path.len() == 0 {
        p.name
    } else {
        p.name + " ("@ + p.path + seq![')']
    }
}

/// Place search over name and path.
pub open spec fn place_matches_query(p: PlaceView, query: Seq<char>) -> bool {
    let q = trim(query);
    q.len() == 0 || contains_ci(p.name, lower(q)) || contains_ci(p.path, lower(q))
}

/// The saved places visible on a host, in order.
pub open spec fn visible_places(saved: Seq<PlaceView>, host_key: Seq<char>) -> Seq<PlaceView>
    decreases saved.len(),
{
    if saved.len() == 0 {
        Seq::empty()
    } else {
        let rest = visible_places(saved.drop_last(), host_key);
        if visible_on(saved.last().host_tags, host_key) {
            rest.push(saved.last())
        } else {
            rest
        }
    }
}

/// The built-in home place.
pub open spec fn home_view() -> PlaceView {
    PlaceView { uuid: "builtin:home"@, name: "Home"@, path: "~"@, host_tags: Seq::empty() }
}

/// The built-in root place.
pub open spec fn root_view() -> PlaceView {
    PlaceView { uuid: "builtin:root"@, name: "Root"@, path: "/"@, host_tags: Seq::empty() }
}

/// `Path::file_name` of a path string.
fn file_name_exec(path: &str) -> (r: Option<String>)
    ensures
        match r {
            Some(n) => file_name(path@) == Some(n@),
            None => file_name(path@) is None,
        },
{
    let v = chars_of(path);
    let mut e: usize = v.len();
    assert(v@.take(e as int) =~= v@);
    loop
        invariant
            e <= v@.len(),
            v@ == path@,
            last_component(v@) == last_component(v@.take(e as int)),
        decreases e,
    {
        if e == 0 {
            assert(v@.take(0) =~= Seq::<char>::empty());
            return None;
        }
        let ghost t = v@.take(e as int);
        if v[e - 1] == '/' {
            assert(t.drop_last() =~= v@.take(e - 1));
            e = e - 1;
            continue;
        }
        let head = &v.as_slice()[0..e];
        assert(head@ =~= t);
        let slash = crate::text::rfind_char_exec(head, '/');
        let start: usize = match slash {
            Some(p) => p + 1,
            None => 0,
        };
        let seg = &v.as_slice()[start..e];
        assert(seg@ =~= t.skip(start as int));
        let is_dot = seg.len() == 1 && seg[0] == '.';
        assert(t.last() != '/');
        assert(crate::text::rfind_char(t, '/') == match slash {
            Some(p) => Some(p as int),
            None => None::<int>,
        });
        proof {
            if is_dot {
                assert(seg@ =~= seq!['.']);
            } else if seg@.len() == 1 {
                assert(seg@ != seq!['.']) by {
                    assert(seg@[0] != '.');
                }
            }
            if slash is None {
                assert(t.skip(0) =~= t);
            }
        }
        if is_dot {
            match slash {
                Some(p) => {
                    assert(t.take(p as int) =~= v@.take(p as int));
                    e = p;
                },
                None => {
                    assert(last_component(t) is None);
                    return None;
                },
            }
        } else {
            let is_parent = seg.len() == 2 && seg[0] == '.' && seg[1] == '.';
            proof {
                if is_parent {
                    assert(seg@ =~= seq!['.', '.']);
                } else if seg@.len() == 2 {
                    assert(seg@ != seq!['.', '.']) by {
                        if seg@[0] == '.' {
                            assert(seg@[1] != '.');
                        }
                    }
                }
            }
            assert(last_component(t) == Some(seg@));
            if is_parent {
                return None;
            }
            return Some(string_from(seg));
        }
    }
}

impl Place {
    /// A new place with a fresh uuid and no host tags.
    pub fn new(name: &str, path: &str) -> (p: Self)
        ensures
            is_hyphenated_uuid(p@.uuid),
            p@.name == name@,
            p@.path == path@,
            p@.host_tags.len() == 0,
    {
        Place { uuid: new_uuid(), name: owned(name), path: owned(path), host_tags: Vec::new() }
    }

    /// A place for a working directory, named after its last path component
    /// (the whole path when it has none).
    pub fn from_cwd(path: &str, host_tags: Vec<String>) -> (p: Self)
        ensures
            p@.name == match file_name(path@) {
                Some(n) => n,
                None => path@,
            },
            p@.path == path@,
            p@.host_tags == strs_view(host_tags@),
    {
        let name = match file_name_exec(path) {
            Some(n) => n,
            None => owned(path),
        };
        Place { uuid: new_uuid(), name, path: owned(path), host_tags }
    }

    /// Display string: name with path in parentheses when they differ.
    pub fn display_label(&self) -> (s: String)
        ensures
            s@ == display_label_spec(self@),
    {
        if str_eq(self.name.as_str(), self.path.as_str()) || self.path.unicode_len() == 0 {
            self.name.clone()
        } else {
            let mut s = self.name.clone();
            s.append(" (");
            s.append(self.path.as_str());
            push_char(&mut s, ')');
            s
        }
    }
}

/// Built-in global place: user home directory.
pub fn builtin_home() -> (p: Place)
    ensures
        p@ == home_view(),
{
    let p = Place { uuid: owned("builtin:home"), name: owned("Home"), path: owned("~"), host_tags: Vec::new() };
    assert(p@.host_tags =~= Seq::<Seq<char>>::empty());
    p
}

/// Built-in global place: filesystem root.
pub fn builtin_root() -> (p: Place)
    ensures
        p@ == root_view(),
{
    let p = Place { uuid: owned("builtin:root"), name: owned("Root"), path: owned("/"), host_tags: Vec::new() };
    assert(p@.host_tags =~= Seq::<Seq<char>>::empty());
    p
}

/// All built-in global places, in display order.
pub fn builtins() -> (v: Vec<Place>)
    ensures
        places_view(v@) == seq![home_view(), root_view()],
{
    let mut v = Vec::new();
    v.push(builtin_home());
    v.push(builtin_root());
    assert(places_view(v@) =~= seq![home_view(), root_view()]);
    v
}

/// Whether a place is visible on a host key (untagged places are global).
pub fn is_visible_on(place: &Place, host_key: &str) -> (b: bool)
    ensures
        b == visible_on(place@.host_tags, host_key@),
{
    place.host_tags.len() == 0 || list_contains(place.host_tags.as_slice(), host_key)
}

/// Places visible on `host_key`: built-ins first, then matching saved places.
pub fn visible_for_host(saved: &[Place], host_key: &str) -> (r: Vec<Place>)
    ensures
        places_view(r@) == seq![home_view(), root_view()] + visible_places(places_view(saved@), host_key@),
{
    let mut r = builtins();
    let mut i: usize = 0;
    while i < saved.len()
        invariant
            i <= saved.len(),
            places_view(r@) == seq![home_view(), root_view()] + visible_places(places_view(saved@.take(i as int)), host_key@),
        decreases saved.len() - i,
    {
        let vis = is_visible_on(&saved[i], host_key);
        let ghost before = r@;
        if vis {
            let c = saved[i].clone();
            r.push(c);
            assert(places_view(r@) =~= places_view(before).push(saved@[i as int]@));
        }
        proof {
            let t = places_view(saved@.take(i + 1));
            assert(t.drop_last() =~= places_view(saved@.take(i as int)));
            assert(t.last() == saved@[i as int]@);
            assert(places_view(r@) =~= seq![home_view(), root_view()] + visible_places(t, host_key@));
        }
        i = i + 1;
    }
    assert(saved@.take(saved.len() as int) =~= saved@);
    r
}

/// Whether a place matches a search query (name or path, case-insensitive;
/// a blank query matches every place).
pub fn matches_query(place: &Place, query: &str) -> (b: bool)
    ensures
        b == place_matches_query(place@, query@),
{
    let q = trimmed(query);
    let qc = chars_of(q);
    if qc.len() == 0 {
        return true;
    }
    let l = lower_chars(qc.as_slice());
    contains_ci_exec(place.name.as_str(), l.as_slice()) || contains_ci_exec(place.path.as_str(), l.as_slice())
}

/// The icon of a place in the new-workspace list.
pub fn place_icon(place: &Place) -> (s: &'static str)
    ensures
        s@ == if place.uuid@ == "builtin:home"@ {
            "user-home-symbolic"@
        } else if place.uuid@ == "builtin:root"@ {
            "drive-harddisk-symbolic"@
        } else {
            "folder-symbolic"@
        },
{
    if crate::text::str_eq(place.uuid.as_str(), "builtin:home") {
        "user-home-symbolic"
    } else if crate::text::str_eq(place.uuid.as_str(), "builtin:root") {
        "drive-harddisk-symbolic"
    } else {
        "folder-symbolic"
    }
}

/// The working directory a place path stands for: `None` for the home
/// directory (blank or `~`, left to the shell, which knows the right home on
/// a remote host), else the trimmed path. A leading `~/` is kept as is.
pub open spec fn resolved_place_path(path: Seq<char>) -> Option<Seq<char>> {
    let t = crate::text::trim(path);
    if t.len() == 0 || t == "~"@ {
        None
    } else {
        Some(t)
    }
}

/// Resolve a place path for use as a working directory.
pub fn resolve_place_path(path: &str) -> (r: Option<String>)
    ensures
        opt_view(r) == resolved_place_path(path@),
{
    let t = crate::text::trimmed(path);
    if t.unicode_len() == 0 || crate::text::str_eq(t, "~") {
        return None;
    }
    Some(owned(t))
}

/// [`resolve_place_path`], for the sidebar.
pub fn resolve_place_path_public(path: &str) -> (r: Option<String>)
    ensures
        opt_view(r) == resolved_place_path(path@),
{
    resolve_place_path(path)
}

/// Built-in suggestions carry ids under this prefix.
pub const BUILTIN_ID_PREFIX: &'static str = "builtin:";

/// Whether a place is a built-in suggestion.
pub open spec fn is_builtin_place(p: PlaceView) -> bool {
    occurs_at(p.uuid, BUILTIN_ID_PREFIX@, 0)
}

/// Whether a place is a built-in suggestion (by its id).
pub fn is_builtin(place: &Place) -> (b: bool)
    ensures
        b == is_builtin_place(place@),
{
    let id = chars_of(place.uuid.as_str());
    let prefix = chars_of(BUILTIN_ID_PREFIX);
    prefix.len() <= id.len() && matches_at(id.as_slice(), prefix.as_slice(), 0)
}

/// The rows of the new-workspace place list for a search: the matching
/// places in order, the built-in ones under a "Suggested" header
/// (`Header(true)`) and the saved ones under a "Saved Places" header
/// (`Header(false)`), each header before the first row of its group.
pub fn place_rows(visible: &[Place], query: &str) -> (r: Vec<ListRow>)
    ensures
        r@ == rows_upto(
            Seq::new(visible@.len(), |i: int| place_matches_query(visible@[i]@, query@)),
            Seq::new(visible@.len(), |i: int| is_builtin_place(visible@[i]@)),
            visible@.len(),
        ),
{
    let mut shown: Vec<bool> = Vec::new();
    let mut builtin: Vec<bool> = Vec::new();
    let mut i: usize = 0;
    while i < visible.len()
        invariant
            i <= visible@.len(),
            shown@ == Seq::new(i as nat, |k: int| place_matches_query(visible@[k]@, query@)),
            builtin@ == Seq::new(i as nat, |k: int| is_builtin_place(visible@[k]@)),
        decreases visible@.len() - i,
    {
        shown.push(matches_query(&visible[i], query));
        builtin.push(is_builtin(&visible[i]));
        i = i + 1;
        assert(shown@ =~= Seq::new(i as nat, |k: int| place_matches_query(visible@[k]@, query@)));
        assert(builtin@ =~= Seq::new(i as nat, |k: int| is_builtin_place(visible@[k]@)));
    }
    sectioned_rows(shown.as_slice(), builtin.as_slice())
}

/// The header text of a place list section.
pub fn place_section_title(builtin: bool) -> (t: &'static str)
    ensures
        t@ == if builtin {
            "Suggested"@
        } else {
            "Saved Places"@
        },
{
    if builtin {
        "Suggested"
    } else {
        "Saved Places"
    }
}

/// Place search ignores the letter case of the query: a query and its
/// lower-cased form match the same places.
pub proof fn law_place_search_ignores_query_case(p: PlaceView, q: Seq<char>)
    ensures
        place_matches_query(p, q) == place_matches_query(p, lower(q)),
{
    lemma_trim_lower(q);
    lemma_lower_idempotent(trim(q));
}

/// Place search finds a place whose name or path holds the trimmed query,
/// letter case ignored on both sides; a blank query matches every place.
pub proof fn law_place_search_finds_text(p: PlaceView, q: Seq<char>)
    ensures
        trim(q).len() == 0 ==> place_matches_query(p, q),
        contains(lower(p.name), lower(trim(q))) ==> place_matches_query(p, q),
        contains(lower(p.path), lower(trim(q))) ==> place_matches_query(p, q),
{
}

} // verus!
