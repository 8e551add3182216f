//! Customizable keyboard shortcuts: the built-in table, user overrides, and
//! migration of the legacy pane-navigation setting.

use vstd::prelude::*;

use crate::preferences::{navigation_accels, PaneNavigationKeys};
use crate::str_map::StrMap;
use crate::text::{owned, str_eq, strs_view};

verus! {

/// A customizable shortcut definition: action name, human-readable label,
/// and default GTK accelerator strings.
#[derive(Debug)]
pub struct ShortcutDef {
    pub action: &'static str,
    pub label: &'static str,
    pub default_accels: Vec<&'static str>,
}

/// The views of a list of static strings.
pub open spec fn strs_of(v: Seq<&'static str>) -> Seq<Seq<char>> {
    v.map_values(|s: &'static str| s@)
}

/// `(action, label, default accelerators)` of a definition.
pub open spec fn def_view(d: ShortcutDef) -> (Seq<char>, Seq<char>, Seq<Seq<char>>) {
    (d.action@, d.label@, strs_of(d.default_accels@))
}

/// The built-in shortcut table. Alt+1–9 workspace switching is excluded:
/// those are positional and not meaningful to remap.
pub open spec fn shortcut_table() -> Seq<(Seq<char>, Seq<char>, Seq<Seq<char>>)> {
    seq![
        ("new-session"@, "New workspace"@, seq!["<Ctrl><Shift>T"@]),
        ("close-terminal"@, "Close pane"@, seq!["<Ctrl><Shift>W"@]),
        ("split-horizontal"@, "Split horizontal"@, seq!["<Ctrl><Shift>E"@]),
        ("split-vertical"@, "Split vertical"@, seq!["<Ctrl><Shift>O"@]),
        ("search"@, "Search"@, seq!["<Ctrl><Shift>F"@]),
        ("copy"@, "Copy"@, seq!["<Ctrl><Shift>C"@]),
        ("paste"@, "Paste"@, seq!["<Ctrl><Shift>V"@]),
        ("prev-session"@, "Previous workspace"@, seq!["<Ctrl><Shift>Tab"@]),
        ("next-session"@, "Next workspace"@, seq!["<Ctrl>Tab"@]),
        ("toggle-sidebar"@, "Toggle workspace sidebar"@, seq!["<Ctrl><Shift>N"@]),
        ("toggle-utility-sidebar"@, "Toggle tools sidebar"@, seq!["<Ctrl><Shift>B"@]),
        ("toggle-input-sync"@, "Toggle input sync"@, seq!["<Ctrl><Shift>i"@]),
        ("fullscreen"@, "Fullscreen"@, seq!["F11"@]),
        ("zoom-in"@, "Zoom in"@, seq!["<Ctrl>plus"@, "<Ctrl>equal"@]),
        ("zoom-out"@, "Zoom out"@, seq!["<Ctrl>minus"@]),
        ("zoom-reset"@, "Zoom reset"@, seq!["<Ctrl>0"@]),
        ("toggle-pane-zoom"@, "Zoom pane (toggle)"@, seq!["<Ctrl><Shift>Z"@]),
        ("rotate-layout"@, "Rotate layout"@, seq!["<Ctrl><Shift>R"@]),
        ("connect-to-existing"@, "Connect to existing workspace"@, seq!["<Ctrl><Shift>A"@]),
        ("new-direct"@, "New direct terminal"@, seq!["<Ctrl><Shift>D"@]),
        ("preferences"@, "Preferences"@, seq!["<Ctrl>comma"@]),
        ("navigate-left"@, "Navigate left"@, seq!["<Alt>Left"@]),
        ("navigate-right"@, "Navigate right"@, seq!["<Alt>Right"@]),
        ("navigate-up"@, "Navigate up"@, seq!["<Alt>Up"@]),
        ("navigate-down"@, "Navigate down"@, seq!["<Alt>Down"@]),
    ]
}

/// All customizable shortcuts with their defaults, in table order.
pub fn default_shortcuts() -> (r: Vec<ShortcutDef>)
    ensures
        r@.map_values(|d: ShortcutDef| def_view(d)) == shortcut_table(),
{
    let mut defs: Vec<ShortcutDef> = Vec::new();
    defs.push(ShortcutDef { action: "new-session", label: "New workspace", default_accels: vec!["<Ctrl><Shift>T"] });
    defs.push(ShortcutDef { action: "close-terminal", label: "Close pane", default_accels: vec!["<Ctrl><Shift>W"] });
    defs.push(ShortcutDef { action: "split-horizontal", label: "Split horizontal", default_accels: vec!["<Ctrl><Shift>E"] });
    defs.push(ShortcutDef { action: "split-vertical", label: "Split vertical", default_accels: vec!["<Ctrl><Shift>O"] });
    defs.push(ShortcutDef { action: "search", label: "Search", default_accels: vec!["<Ctrl><Shift>F"] });
    defs.push(ShortcutDef { action: "copy", label: "Copy", default_accels: vec!["<Ctrl><Shift>C"] });
    defs.push(ShortcutDef { action: "paste", label: "Paste", default_accels: vec!["<Ctrl><Shift>V"] });
    defs.push(ShortcutDef { action: "prev-session", label: "Previous workspace", default_accels: vec!["<Ctrl><Shift>Tab"] });
    defs.push(ShortcutDef { action: "next-session", label: "Next workspace", default_accels: vec!["<Ctrl>Tab"] });
    defs.push(ShortcutDef { action: "toggle-sidebar", label: "Toggle workspace sidebar", default_accels: vec!["<Ctrl><Shift>N"] });
    defs.push(ShortcutDef { action: "toggle-utility-sidebar", label: "Toggle tools sidebar", default_accels: vec!["<Ctrl><Shift>B"] });
    defs.push(ShortcutDef { action: "toggle-input-sync", label: "Toggle input sync", default_accels: vec!["<Ctrl><Shift>i"] });
    defs.push(ShortcutDef { action: "fullscreen", label: "Fullscreen", default_accels: vec!["F11"] });
    defs.push(ShortcutDef { action: "zoom-in", label: "Zoom in", default_accels: vec!["<Ctrl>plus", "<Ctrl>equal"] });
    defs.push(ShortcutDef { action: "zoom-out", label: "Zoom out", default_accels: vec!["<Ctrl>minus"] });
    defs.push(ShortcutDef { action: "zoom-reset", label: "Zoom reset", default_accels: vec!["<Ctrl>0"] });
    defs.push(ShortcutDef { action: "toggle-pane-zoom", label: "Zoom pane (toggle)", default_accels: vec!["<Ctrl><Shift>Z"] });
    defs.push(ShortcutDef { action: "rotate-layout", label: "Rotate layout", default_accels: vec!["<Ctrl><Shift>R"] });
    defs.push(ShortcutDef { action: "connect-to-existing", label: "Connect to existing workspace", default_accels: vec!["<Ctrl><Shift>A"] });
    defs.push(ShortcutDef { action: "new-direct", label: "New direct terminal", default_accels: vec!["<Ctrl><Shift>D"] });
    defs.push(ShortcutDef { action: "preferences", label: "Preferences", default_accels: vec!["<Ctrl>comma"] });
    defs.push(ShortcutDef { action: "navigate-left", label: "Navigate left", default_accels: vec!["<Alt>Left"] });
    defs.push(ShortcutDef { action: "navigate-right", label: "Navigate right", default_accels: vec!["<Alt>Right"] });
    defs.push(ShortcutDef { action: "navigate-up", label: "Navigate up", default_accels: vec!["<Alt>Up"] });
    defs.push(ShortcutDef { action: "navigate-down", label: "Navigate down", default_accels: vec!["<Alt>Down"] });
    proof {
        let v = defs@.map_values(|d: ShortcutDef| def_view(d));
        assert forall|i: int| 0 <= i < v.len() implies v[i].2 == shortcut_table()[i].2 by {
            assert(strs_of(defs@[i].default_accels@) =~= shortcut_table()[i].2);
        }
        assert(v =~= shortcut_table());
    }
    defs
}

/// The default accelerators of the first table entry for `action` (none
/// for an unknown action).
pub open spec fn table_accels(table: Seq<(Seq<char>, Seq<char>, Seq<Seq<char>>)>, action: Seq<char>) -> Seq<Seq<char>>
    decreases table.len(),
{
    if table.len() == 0 {
        Seq::empty()
    } else if table[0].0 == action {
        table[0].2
    } else {
        table_accels(table.drop_first(), action)
    }
}

/// The views of a shortcut override map.
pub open spec fn overrides_view(m: Map<Seq<char>, Vec<String>>) -> Map<Seq<char>, Seq<Seq<char>>> {
    m.map_values(|v: Vec<String>| strs_view(v@))
}

fn to_strings(v: &Vec<&'static str>) -> (r: Vec<String>)
    ensures
        strs_view(r@) == strs_of(v@),
{
    let mut r: Vec<String> = Vec::new();
    let mut i: usize = 0;
    while i < v.len()
        invariant
            i <= v.len(),
            strs_view(r@) == strs_of(v@.take(i as int)),
        decreases v.len() - i,
    {
        let ghost before = r@;
        r.push(owned(v[i]));
        assert(strs_view(r@) =~= strs_view(before).push(v@[i as int]@));
        assert(strs_of(v@.take(i + 1)) =~= strs_of(v@.take(i as int)).push(v@[i as int]@));
        i = i + 1;
    }
    assert(v@.take(v@.len() as int) =~= v@);
    r
}

/// Return the default accelerators for an action.
pub fn default_accels(action: &str) -> (r: Vec<String>)
    ensures
        strs_view(r@) == table_accels(shortcut_table(), action@),
{
    let defs = default_shortcuts();
    let ghost t = shortcut_table();
    assert(t.skip(0) =~= t);
    let mut i: usize = 0;
    while i < defs.len()
        invariant
            i <= defs.len(),
            defs@.map_values(|d: ShortcutDef| def_view(d)) == t,
            t == shortcut_table(),
            table_accels(t, action@) == table_accels(t.skip(i as int), action@),
        decreases defs.len() - i,
    {
        proof {
            assert(t.skip(i as int)[0] == t[i as int]);
            assert(t.skip(i as int).drop_first() =~= t.skip(i + 1));
        }
        if str_eq(defs[i].action, action) {
            return to_strings(&defs[i].default_accels);
        }
        i = i + 1;
    }
    Vec::new()
}

/// Look up the effective accelerators for an action, checking user overrides
/// first, then falling back to the built-in default.
pub fn effective_accels(action: &str, overrides: &StrMap<Vec<String>>) -> (r: Vec<String>)
    ensures
        strs_view(r@) == if overrides@.dom().contains(action@) {
            overrides_view(overrides@)[action@]
        } else {
            table_accels(shortcut_table(), action@)
        },
{
    match overrides.get(action) {
        Some(custom) => {
            let r = custom.clone();
            assert(strs_view(r@) =~= strs_view(custom@));
            r
        },
        None => default_accels(action),
    }
}

/// Overrides that a non-default legacy navigation key set stands for.
pub open spec fn navigation_overrides(legacy: PaneNavigationKeys) -> Map<Seq<char>, Seq<Seq<char>>> {
    let (left, right, up, down) = navigation_accels(legacy);
    map![
        "navigate-left"@ => seq![left],
        "navigate-right"@ => seq![right],
        "navigate-up"@ => seq![up],
        "navigate-down"@ => seq![down],
    ]
}

fn insert_if_absent(shortcuts: &mut StrMap<Vec<String>>, action: &str, accel: &str)
    ensures
        overrides_view(final(shortcuts)@) == if old(shortcuts)@.dom().contains(action@) {
            overrides_view(old(shortcuts)@)
        } else {
            overrides_view(old(shortcuts)@).insert(action@, seq![accel@])
        },
{
    if !shortcuts.contains_key(action) {
        let v = vec![owned(accel)];
        assert(strs_view(v@) =~= seq![accel@]);
        shortcuts.insert(owned(action), v);
        assert(overrides_view(shortcuts@) =~= overrides_view(old(shortcuts)@).insert(action@, seq![accel@]));
    }
}

/// Migrate the legacy pane-navigation setting into shortcut overrides:
/// for a non-default key set, each navigation action without an explicit
/// override gets the key set's accelerator; existing overrides win.
pub fn migrate_pane_navigation(legacy: &PaneNavigationKeys, shortcuts: &mut StrMap<Vec<String>>)
    ensures
        overrides_view(final(shortcuts)@) == if *legacy == PaneNavigationKeys::AltArrow {
            overrides_view(old(shortcuts)@)
        } else {
            navigation_overrides(*legacy).union_prefer_right(overrides_view(old(shortcuts)@))
        },
{
    if *legacy == PaneNavigationKeys::AltArrow {
        return;
    }
    let ghost o = overrides_view(shortcuts@);
    let (left, right, up, down) = legacy.accels();
    proof {
        reveal_strlit("navigate-left");
        reveal_strlit("navigate-right");
        reveal_strlit("navigate-up");
        reveal_strlit("navigate-down");
    }
    let ghost l = "navigate-left"@;
    let ghost r = "navigate-right"@;
    let ghost u = "navigate-up"@;
    let ghost d = "navigate-down"@;
    insert_if_absent(shortcuts, "navigate-left", left);
    let ghost o1 = overrides_view(shortcuts@);
    insert_if_absent(shortcuts, "navigate-right", right);
    let ghost o2 = overrides_view(shortcuts@);
    insert_if_absent(shortcuts, "navigate-up", up);
    let ghost o3 = overrides_view(shortcuts@);
    insert_if_absent(shortcuts, "navigate-down", down);
    proof {
        let nav = navigation_overrides(*legacy);
        assert(l.len() == 13 && r.len() == 14 && u.len() == 11 && d.len() == 13);
        assert(l[9] == 'l' && d[9] == 'd');
        assert(l != r && l != u && l != d && r != u && r != d && u != d);
        assert(o1.dom().contains(r) == o.dom().contains(r));
        assert(o2.dom().contains(u) == o.dom().contains(u));
        assert(o3.dom().contains(d) == o.dom().contains(d));
        assert(nav.dom() =~= set![l, r, u, d]);
        assert(overrides_view(shortcuts@) =~= nav.union_prefer_right(o));
    }
}

/// The legacy navigation setting as it reaches the overrides: every
/// existing override stays as it was, and migrating a second time changes
/// nothing.
pub proof fn law_navigation_migration_keeps_overrides(legacy: PaneNavigationKeys, o: Map<Seq<char>, Seq<Seq<char>>>)
    ensures
        forall|k: Seq<char>| #[trigger] o.dom().contains(k) ==> navigation_overrides(legacy).union_prefer_right(o)[k] == o[k],
        o.dom().subset_of(navigation_overrides(legacy).union_prefer_right(o).dom()),
        navigation_overrides(legacy).union_prefer_right(navigation_overrides(legacy).union_prefer_right(o))
            == navigation_overrides(legacy).union_prefer_right(o),
{
    let n = navigation_overrides(legacy);
    assert(n.union_prefer_right(n.union_prefer_right(o)) =~= n.union_prefer_right(o));
}

} // verus!
