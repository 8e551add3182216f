//! Terminal color schemes (Tilix-compatible): the built-in pair, merging
//! with user scheme files by name, and palette validation.

use vstd::prelude::*;

use crate::order::strictly_sorted;
use crate::str_map::StrMap;
use crate::config::SCHEMES_DIR;
use crate::text::{join_path, join_path_exec, owned, push_decimal, str_eq, strs_view};

verus! {

/// Name of the built-in dark scheme.
pub const BUILTIN_DARK_SCHEME_NAME: &'static str = "Rttx Nightfall";

/// Name of the built-in light scheme.
pub const BUILTIN_LIGHT_SCHEME_NAME: &'static str = "Rttx Daybreak";

/// Number of colors in a scheme's palette.
pub const PALETTE_SIZE: usize = 16;

/// A color scheme definition, compatible with Tilix JSON format.
#[derive(Debug, PartialEq, Eq)]
pub struct ColorScheme {
    pub name: String,
    pub comment: String,
    pub use_theme_colors: bool,
    pub foreground: String,
    pub background: String,
    pub palette: Vec<String>,
    pub use_cursor_color: bool,
    pub cursor_fg: String,
    pub cursor_bg: String,
    pub use_highlight_color: bool,
    pub highlight_fg: String,
    pub highlight_bg: String,
    pub use_bold_color: bool,
    pub bold_color: String,
}

/// Mathematical model of a [`ColorScheme`].
pub struct ColorSchemeView {
    pub name: Seq<char>,
    pub comment: Seq<char>,
    pub use_theme_colors: bool,
    pub foreground: Seq<char>,
    pub background: Seq<char>,
    pub palette: Seq<Seq<char>>,
    pub use_cursor_color: bool,
    pub cursor_fg: Seq<char>,
    pub cursor_bg: Seq<char>,
    pub use_highlight_color: bool,
    pub highlight_fg: Seq<char>,
    pub highlight_bg: Seq<char>,
    pub use_bold_color: bool,
    pub bold_color: Seq<char>,
}

impl View for ColorScheme {
    type V = ColorSchemeView;

    open spec fn view(&self) -> ColorSchemeView {
        ColorSchemeView {
            name: self.name@,
            comment: self.comment@,
            use_theme_colors: self.use_theme_colors,
            foreground: self.foreground@,
            background: self.background@,
            palette: strs_view(self.palette@),
            use_cursor_color: self.use_cursor_color,
            cursor_fg: self.cursor_fg@,
            cursor_bg: self.cursor_bg@,
            use_highlight_color: self.use_highlight_color,
            highlight_fg: self.highlight_fg@,
            highlight_bg: self.highlight_bg@,
            use_bold_color: self.use_bold_color,
            bold_color: self.bold_color@,
        }
    }
}

/// Views of a list of schemes.
pub open spec fn schemes_view(v: Seq<ColorScheme>) -> Seq<ColorSchemeView> {
    v.map_values(|s: ColorScheme| s@)
}

fn clone_strings(v: &Vec<String>) -> (r: Vec<String>)
    ensures
        strs_view(r@) == strs_view(v@),
{
    let r = v.clone();
    assert(strs_view(r@) =~= strs_view(v@));
    r
}

impl Clone for ColorScheme {
    fn clone(&self) -> (r: Self)
        ensures
            r@ == self@,
    {
        ColorScheme {
            name: self.name.clone(),
            comment: self.comment.clone(),
            use_theme_colors: self.use_theme_colors,
            foreground: self.foreground.clone(),
            background: self.background.clone(),
            palette: clone_strings(&self.palette),
            use_cursor_color: self.use_cursor_color,
            cursor_fg: self.cursor_fg.clone(),
            cursor_bg: self.cursor_bg.clone(),
            use_highlight_color: self.use_highlight_color,
            highlight_fg: self.highlight_fg.clone(),
            highlight_bg: self.highlight_bg.clone(),
            use_bold_color: self.use_bold_color,
            bold_color: self.bold_color.clone(),
        }
    }
}

/// A built-in scheme: cursor, highlight and bold colors on, theme colors off.
pub open spec fn builtin_scheme_view(
    name: Seq<char>,
    comment: Seq<char>,
    foreground: Seq<char>,
    background: Seq<char>,
    palette: Seq<Seq<char>>,
    cursor_fg: Seq<char>,
    cursor_bg: Seq<char>,
    highlight_fg: Seq<char>,
    highlight_bg: Seq<char>,
    bold_color: Seq<char>,
) -> ColorSchemeView {
    ColorSchemeView {
        name,
        comment,
        use_theme_colors: false,
        foreground,
        background,
        palette,
        use_cursor_color: true,
        cursor_fg,
        cursor_bg,
        use_highlight_color: true,
        highlight_fg,
        highlight_bg,
        use_bold_color: true,
        bold_color,
    }
}

/// The palette of the built-in dark scheme.
pub open spec fn nightfall_palette() -> Seq<Seq<char>> {
    seq![
        "#171B24"@, "#D46A6A"@, "#86B97A"@, "#D7B56D"@, "#7AA2D6"@, "#B18AD1"@, "#68B8C1"@, "#D9DEE7"@,
        "#4B5563"@, "#FF8F88"@, "#A7D79B"@, "#F4D48B"@, "#9BC3FF"@, "#D4ACFF"@, "#86DDE8"@, "#F5F7FA"@,
    ]
}

/// The palette of the built-in light scheme.
pub open spec fn daybreak_palette() -> Seq<Seq<char>> {
    seq![
        "#2B2F36"@, "#B2472F"@, "#2F6B3C"@, "#8A6318"@, "#2F5FAE"@, "#7B4CB0"@, "#1E6F79"@, "#687281"@,
        "#768090"@, "#CC5A3C"@, "#3F7D4D"@, "#A97A1F"@, "#4B7BD0"@, "#9562C7"@, "#2B8791"@, "#37414F"@,
    ]
}

/// The built-in schemes: dark first, then light.
pub open spec fn builtin_schemes() -> Seq<ColorSchemeView> {
    seq![
        builtin_scheme_view(
            BUILTIN_DARK_SCHEME_NAME@,
            "A deep graphite terminal with restrained accents and clear ANSI contrast."@,
            "#E6E7EB"@,
            "#11141A"@,
            nightfall_palette(),
            "#11141A"@,
            "#FFB454"@,
            "#F5F7FA"@,
            "#2A3A52"@,
            "#FFFFFF"@,
        ),
        builtin_scheme_view(
            BUILTIN_LIGHT_SCHEME_NAME@,
            "A warm paper-light terminal with stronger ANSI contrast for modern CLI apps."@,
            "#26323B"@,
            "#FAF7F0"@,
            daybreak_palette(),
            "#FAF7F0"@,
            "#B2472F"@,
            "#26323B"@,
            "#D8E6FF"@,
            "#111827"@,
        ),
    ]
}

fn owned_all(v: &[&str]) -> (r: Vec<String>)
    ensures
        strs_view(r@) == v@.map_values(|s: &str| s@),
{
    let mut r: Vec<String> = Vec::new();
    let mut i: usize = 0;
    while i < v.len()
        invariant
            i <= v.len(),
            strs_view(r@) == v@.take(i as int).map_values(|s: &str| s@),
        decreases v.len() - i,
    {
        let ghost before = r@;
        r.push(owned(v[i]));
        assert(strs_view(r@) =~= strs_view(before).push(v@[i as int]@));
        assert(v@.take(i + 1).map_values(|s: &str| s@) =~= v@.take(i as int).map_values(|s: &str| s@).push(v@[i as int]@));
        i = i + 1;
    }
    assert(v@.take(v@.len() as int) =~= v@);
    r
}

fn builtin_scheme(
    name: &str,
    comment: &str,
    foreground: &str,
    background: &str,
    palette: &[&str],
    cursor_fg: &str,
    cursor_bg: &str,
    highlight_fg: &str,
    highlight_bg: &str,
    bold_color: &str,
) -> (s: ColorScheme)
    ensures
        s@ == builtin_scheme_view(
            name@,
            comment@,
            foreground@,
            background@,
            palette@.map_values(|c: &str| c@),
            cursor_fg@,
            cursor_bg@,
            highlight_fg@,
            highlight_bg@,
            bold_color@,
        ),
{
    ColorScheme {
        name: owned(name),
        comment: owned(comment),
        use_theme_colors: false,
        foreground: owned(foreground),
        background: owned(background),
        palette: owned_all(palette),
        use_cursor_color: true,
        cursor_fg: owned(cursor_fg),
        cursor_bg: owned(cursor_bg),
        use_highlight_color: true,
        highlight_fg: owned(highlight_fg),
        highlight_bg: owned(highlight_bg),
        use_bold_color: true,
        bold_color: owned(bold_color),
    }
}

/// The built-in schemes, dark then light.
pub fn builtin_color_schemes() -> (r: Vec<ColorScheme>)
    ensures
        schemes_view(r@) == builtin_schemes(),
{
    let nightfall = vec![
        "#171B24", "#D46A6A", "#86B97A", "#D7B56D", "#7AA2D6", "#B18AD1", "#68B8C1", "#D9DEE7",
        "#4B5563", "#FF8F88", "#A7D79B", "#F4D48B", "#9BC3FF", "#D4ACFF", "#86DDE8", "#F5F7FA",
    ];
    let daybreak = vec![
        "#2B2F36", "#B2472F", "#2F6B3C", "#8A6318", "#2F5FAE", "#7B4CB0", "#1E6F79", "#687281",
        "#768090", "#CC5A3C", "#3F7D4D", "#A97A1F", "#4B7BD0", "#9562C7", "#2B8791", "#37414F",
    ];
    let dark = builtin_scheme(
        BUILTIN_DARK_SCHEME_NAME,
        "A deep graphite terminal with restrained accents and clear ANSI contrast.",
        "#E6E7EB",
        "#11141A",
        nightfall.as_slice(),
        "#11141A",
        "#FFB454",
        "#F5F7FA",
        "#2A3A52",
        "#FFFFFF",
    );
    let light = builtin_scheme(
        BUILTIN_LIGHT_SCHEME_NAME,
        "A warm paper-light terminal with stronger ANSI contrast for modern CLI apps.",
        "#26323B",
        "#FAF7F0",
        daybreak.as_slice(),
        "#FAF7F0",
        "#B2472F",
        "#26323B",
        "#D8E6FF",
        "#111827",
    );
    assert(nightfall@.map_values(|c: &str| c@) =~= nightfall_palette());
    assert(daybreak@.map_values(|c: &str| c@) =~= daybreak_palette());
    let r = vec![dark, light];
    assert(schemes_view(r@) =~= builtin_schemes());
    r
}

/// Schemes by name, a later scheme replacing an earlier one of that name.
pub open spec fn schemes_by_name(s: Seq<ColorSchemeView>) -> Map<Seq<char>, ColorSchemeView>
    decreases s.len(),
{
    if s.len() == 0 {
        Map::empty()
    } else {
        schemes_by_name(s.drop_last()).insert(s.last().name, s.last())
    }
}

/// `merged` lists the schemes of `by_name` once each, in ascending name order.
pub open spec fn lists_by_name(merged: Seq<ColorSchemeView>, by_name: Map<Seq<char>, ColorSchemeView>) -> bool {
    &&& strictly_sorted(merged.map_values(|s: ColorSchemeView| s.name))
    &&& merged.map_values(|s: ColorSchemeView| s.name).to_set() == by_name.dom()
    &&& forall|i: int| 0 <= i < merged.len() ==> by_name[#[trigger] merged[i].name] == merged[i]
}

/// The built-in schemes merged with schemes found on disk: a found scheme
/// replaces any earlier scheme of its name (later files win), and the
/// result is ordered by name.
pub fn merge_color_schemes(found: &[ColorScheme]) -> (r: Vec<ColorScheme>)
    ensures
        lists_by_name(schemes_view(r@), schemes_by_name(builtin_schemes() + schemes_view(found@))),
{
    let builtin = builtin_color_schemes();
    let ghost all = builtin_schemes() + schemes_view(found@);
    let mut by_name: StrMap<ColorScheme> = StrMap::new();
    let mut i: usize = 0;
    while i < builtin.len()
        invariant
            builtin.len() == 2,
            schemes_view(builtin@) == builtin_schemes(),
            all == builtin_schemes() + schemes_view(found@),
            i <= builtin.len(),
            by_name@.dom() == schemes_by_name(all.take(i as int)).dom(),
            forall|k: Seq<char>| #[trigger] by_name@.dom().contains(k) ==> by_name@[k]@ == schemes_by_name(all.take(i as int))[k],
        decreases builtin.len() - i,
    {
        let sc = builtin[i].clone();
        proof {
            assert(sc@ == all[i as int]);
            assert(all.take(i + 1).drop_last() =~= all.take(i as int));
        }
        let name = sc.name.clone();
        by_name.insert(name, sc);
        proof {
            assert(by_name@.dom() =~= schemes_by_name(all.take(i + 1)).dom());
        }
        i = i + 1;
    }
    let mut j: usize = 0;
    while j < found.len()
        invariant
            all == builtin_schemes() + schemes_view(found@),
            all.len() == 2 + found.len(),
            j <= found.len(),
            by_name@.dom() == schemes_by_name(all.take(2 + j)).dom(),
            forall|k: Seq<char>| #[trigger] by_name@.dom().contains(k) ==> by_name@[k]@ == schemes_by_name(all.take(2 + j))[k],
        decreases found.len() - j,
    {
        let sc = found[j].clone();
        proof {
            assert(sc@ == all[2 + j]);
            assert(all.take(2 + j + 1).drop_last() =~= all.take(2 + j));
        }
        let name = sc.name.clone();
        by_name.insert(name, sc);
        proof {
            assert(by_name@.dom() =~= schemes_by_name(all.take(2 + j + 1)).dom());
        }
        j = j + 1;
    }
    assert(all.take(all.len() as int) =~= all);
    let ghost m = schemes_by_name(all);
    let n = by_name.len();
    let mut r: Vec<ColorScheme> = Vec::new();
    let mut p: usize = 0;
    while p < n
        invariant
            n == by_name.keys().len(),
            by_name.wf(),
            p <= n,
            r@.len() == p,
            by_name@.dom() == m.dom(),
            forall|k: Seq<char>| #[trigger] by_name@.dom().contains(k) ==> by_name@[k]@ == m[k],
            forall|q: int| 0 <= q < p ==> (#[trigger] r@[q])@ == by_name@[by_name.keys()[q]]@,
        decreases n - p,
    {
        let v = by_name.value_at(p).clone();
        r.push(v);
        p = p + 1;
    }
    proof {
        let names = schemes_view(r@).map_values(|s: ColorSchemeView| s.name);
        assert forall|q: int| 0 <= q < n implies #[trigger] names[q] == by_name.keys()[q] by {
            assert(by_name.keys().contains(by_name.keys()[q]));
            assert(by_name@.dom().contains(by_name.keys()[q]));
            lemma_names_match(all, by_name.keys()[q]);
        }
        assert(names =~= by_name.keys());
        assert(names.to_set() == m.dom());
        assert forall|q: int| 0 <= q < schemes_view(r@).len() implies m[#[trigger] schemes_view(r@)[q].name] == schemes_view(r@)[q] by {
            let k = by_name.keys()[q];
            assert(by_name.keys().contains(k));
            assert(by_name@.dom().contains(k));
            assert(r@[q]@ == m[k]);
            assert(names[q] == k);
        }
    }
    r
}

/// Every scheme stored under a name carries that name.
proof fn lemma_names_match(s: Seq<ColorSchemeView>, k: Seq<char>)
    requires
        schemes_by_name(s).dom().contains(k),
    ensures
        schemes_by_name(s)[k].name == k,
    decreases s.len(),
{
    if s.len() > 0 && s.last().name != k {
        lemma_names_match(s.drop_last(), k);
    }
}

/// The error for a scheme whose palette is not [`PALETTE_SIZE`] colors long.
pub open spec fn palette_error(name: Seq<char>, len: nat) -> Seq<char> {
    "Color scheme '"@ + name + "' has "@ + crate::text::dec(len) + " palette colors, expected 16"@
}

/// Accept a scheme read from a file only when its palette has exactly
/// [`PALETTE_SIZE`] colors.
pub fn check_scheme_palette(scheme: &ColorScheme) -> (r: Result<(), String>)
    ensures
        scheme.palette@.len() == PALETTE_SIZE <==> r is Ok,
        r matches Err(e) ==> e@ == palette_error(scheme.name@, scheme.palette@.len()),
{
    if scheme.palette.len() == PALETTE_SIZE {
        return Ok(());
    }
    let mut e = owned("Color scheme '");
    e.append(scheme.name.as_str());
    e.append("' has ");
    push_decimal(&mut e, scheme.palette.len() as u64);
    e.append(" palette colors, expected 16");
    Err(e)
}

/// The scheme named `name` among the built-ins merged with `found`.
pub fn load_color_scheme_by_name(found: &[ColorScheme], name: &str) -> (r: Option<ColorScheme>)
    ensures
        ({
            let m = schemes_by_name(builtin_schemes() + schemes_view(found@));
            &&& r is Some <==> m.dom().contains(name@)
            &&& r matches Some(s) ==> s@ == m[name@]
        }),
{
    let schemes = merge_color_schemes(found);
    let ghost m = schemes_by_name(builtin_schemes() + schemes_view(found@));
    let ghost names = schemes_view(schemes@).map_values(|s: ColorSchemeView| s.name);
    let mut i: usize = 0;
    while i < schemes.len()
        invariant
            i <= schemes.len(),
            names == schemes_view(schemes@).map_values(|s: ColorSchemeView| s.name),
            m == schemes_by_name(builtin_schemes() + schemes_view(found@)),
            lists_by_name(schemes_view(schemes@), m),
            forall|q: int| 0 <= q < i ==> schemes@[q].name@ != name@,
        decreases schemes.len() - i,
    {
        if str_eq(schemes[i].name.as_str(), name) {
            proof {
                assert(schemes_view(schemes@)[i as int].name == name@);
                assert(names[i as int] == name@);
                assert(names.to_set().contains(name@));
                let merged = schemes_view(schemes@);
                assert(m[merged[i as int].name] == merged[i as int]);
            }
            return Some(schemes[i].clone());
        }
        i = i + 1;
    }
    proof {
        if names.to_set().contains(name@) {
            assert(names.contains(name@));
            let q = choose|q: int| 0 <= q < names.len() && names[q] == name@;
            assert(schemes@[q].name@ == name@);
        }
    }
    None
}

/// Names of the built-in schemes merged with `found`, sorted, each once.
pub fn load_scheme_names(found: &[ColorScheme]) -> (r: Vec<String>)
    ensures
        strictly_sorted(strs_view(r@)),
        strs_view(r@).to_set() == schemes_by_name(builtin_schemes() + schemes_view(found@)).dom(),
{
    let schemes = merge_color_schemes(found);
    let ghost names = schemes_view(schemes@).map_values(|s: ColorSchemeView| s.name);
    let mut r: Vec<String> = Vec::new();
    let mut i: usize = 0;
    while i < schemes.len()
        invariant
            i <= schemes.len(),
            names == schemes_view(schemes@).map_values(|s: ColorSchemeView| s.name),
            strs_view(r@) == names.take(i as int),
        decreases schemes.len() - i,
    {
        let ghost before = r@;
        r.push(schemes[i].name.clone());
        assert(strs_view(r@) =~= strs_view(before).push(names[i as int]));
        assert(names.take(i + 1) =~= names.take(i as int).push(names[i as int]));
        i = i + 1;
    }
    assert(names.take(names.len() as int) =~= names);
    r
}

/// The directories searched for palette files, in order: the profile's
/// `schemes` directory under each system data directory, then under the
/// user's config directory (later files override earlier ones).
pub open spec fn scheme_dirs_spec(system_data_dirs: Seq<Seq<char>>, config_dir_name: Seq<char>, config_dir: Seq<char>) -> Seq<
    Seq<char>,
> {
    system_data_dirs.map_values(|d: Seq<char>| join_path(join_path(d, config_dir_name), SCHEMES_DIR@)).push(
        join_path(config_dir, SCHEMES_DIR@),
    )
}

/// The directories searched for palette files.
pub fn scheme_search_dirs(system_data_dirs: &[String], config_dir_name: &str, config_dir: &str) -> (r: Vec<String>)
    ensures
        strs_view(r@) == scheme_dirs_spec(strs_view(system_data_dirs@), config_dir_name@, config_dir@),
{
    let ghost sd = strs_view(system_data_dirs@);
    let mut dirs: Vec<String> = Vec::new();
    let mut i: usize = 0;
    while i < system_data_dirs.len()
        invariant
            i <= system_data_dirs@.len(),
            sd == strs_view(system_data_dirs@),
            strs_view(dirs@) == sd.take(i as int).map_values(
                |d: Seq<char>| join_path(join_path(d, config_dir_name@), SCHEMES_DIR@),
            ),
        decreases system_data_dirs@.len() - i,
    {
        let base = join_path_exec(system_data_dirs[i].as_str(), config_dir_name);
        let ghost before = strs_view(dirs@);
        let dir = join_path_exec(base.as_str(), SCHEMES_DIR);
        dirs.push(dir);
        assert(sd[i as int] == system_data_dirs@[i as int]@);
        assert(strs_view(dirs@) =~= before.push(dir@));
        assert(sd.take(i + 1) =~= sd.take(i as int).push(sd[i as int]));
        i = i + 1;
        assert(strs_view(dirs@) =~= sd.take(i as int).map_values(
            |d: Seq<char>| join_path(join_path(d, config_dir_name@), SCHEMES_DIR@),
        ));
    }
    assert(sd.take(system_data_dirs@.len() as int) =~= sd);
    dirs.push(join_path_exec(config_dir, SCHEMES_DIR));
    assert(strs_view(dirs@) =~= scheme_dirs_spec(sd, config_dir_name@, config_dir@));
    dirs
}

} // verus!
