//! Built-in color schemes, merging by name and palette validation.

use rttx::color_scheme::{
    builtin_color_schemes, check_scheme_palette, load_color_scheme_by_name, load_scheme_names, merge_color_schemes,
    ColorScheme, BUILTIN_DARK_SCHEME_NAME, BUILTIN_LIGHT_SCHEME_NAME, scheme_search_dirs,
};

fn test_scheme(name: &str) -> ColorScheme {
    ColorScheme {
        name: name.into(),
        comment: String::new(),
        use_theme_colors: false,
        foreground: "#FFFFFF".into(),
        background: "#000000".into(),
        palette: (0..16).map(|i| format!("#0000{i:02X}")).collect(),
        use_cursor_color: false,
        cursor_fg: String::new(),
        cursor_bg: String::new(),
        use_highlight_color: false,
        highlight_fg: String::new(),
        highlight_bg: String::new(),
        use_bold_color: false,
        bold_color: String::new(),
    }
}

#[test]
fn builtin_schemes_are_present_and_valid() {
    let schemes = merge_color_schemes(&[]);
    let dark = schemes
        .iter()
        .find(|scheme| scheme.name == BUILTIN_DARK_SCHEME_NAME)
        .expect("dark builtin scheme must be present");
    let light = schemes
        .iter()
        .find(|scheme| scheme.name == BUILTIN_LIGHT_SCHEME_NAME)
        .expect("light builtin scheme must be present");

    assert_eq!(dark.palette.len(), 16);
    assert_eq!(light.palette.len(), 16);
    assert!(!dark.foreground.is_empty());
    assert!(!dark.background.is_empty());
    assert!(!light.foreground.is_empty());
    assert!(!light.background.is_empty());
}

#[test]
fn builtin_schemes_dark_then_light() {
    let schemes = builtin_color_schemes();
    assert_eq!(schemes.len(), 2);
    assert_eq!(schemes[0].name, BUILTIN_DARK_SCHEME_NAME);
    assert_eq!(schemes[1].name, BUILTIN_LIGHT_SCHEME_NAME);
    assert_eq!(schemes[0].background, "#11141A");
    assert_eq!(schemes[1].palette[0], "#2B2F36");
    assert!(schemes[0].use_cursor_color && schemes[0].use_highlight_color && schemes[0].use_bold_color);
}

#[test]
fn load_rejects_wrong_palette_size() {
    let mut scheme = test_scheme("BadPalette");
    scheme.palette.pop();
    let result = check_scheme_palette(&scheme);
    assert!(result.is_err());
    assert!(result.unwrap_err().contains("16"), "Error should mention expected palette size");
    assert_eq!(check_scheme_palette(&test_scheme("Good")), Ok(()));
}

#[test]
fn palette_error_names_scheme_and_count() {
    let mut scheme = test_scheme("Short");
    scheme.palette.truncate(3);
    assert_eq!(
        check_scheme_palette(&scheme),
        Err("Color scheme 'Short' has 3 palette colors, expected 16".to_string())
    );
}

#[test]
fn load_multiple_schemes_from_directory() {
    let found = vec![test_scheme("Zebra"), test_scheme("Alpha"), test_scheme("Middle")];
    let schemes = merge_color_schemes(&found);
    let names: Vec<&str> = schemes.iter().map(|s| s.name.as_str()).collect();
    assert_eq!(names, vec!["Alpha", "Middle", BUILTIN_LIGHT_SCHEME_NAME, BUILTIN_DARK_SCHEME_NAME, "Zebra"]);
}

#[test]
fn found_scheme_replaces_builtin_of_same_name() {
    let mut custom = test_scheme(BUILTIN_DARK_SCHEME_NAME);
    custom.background = "#123456".into();
    let schemes = merge_color_schemes(&[custom]);
    assert_eq!(schemes.len(), 2);
    let dark = load_color_scheme_by_name(&[test_scheme(BUILTIN_DARK_SCHEME_NAME)], BUILTIN_DARK_SCHEME_NAME).unwrap();
    assert_eq!(dark.background, "#000000");
    assert!(schemes.iter().any(|s| s.background == "#123456"));
}

#[test]
fn scheme_lookup_by_name() {
    assert!(load_color_scheme_by_name(&[], "Nope").is_none());
    assert_eq!(load_color_scheme_by_name(&[test_scheme("Tango")], "Tango").unwrap().name, "Tango");
    assert_eq!(
        load_scheme_names(&[test_scheme("Tango"), test_scheme("Tango")]),
        vec![BUILTIN_LIGHT_SCHEME_NAME.to_string(), BUILTIN_DARK_SCHEME_NAME.to_string(), "Tango".to_string()]
    );
}

#[test]
fn scheme_search_dirs_list_system_dirs_then_config_dir() {
    let dirs = scheme_search_dirs(&["/usr/share".to_string(), "/opt/share/".to_string()], "rttx", "/home/u/.config/rttx");
    assert_eq!(
        dirs,
        vec!["/usr/share/rttx/schemes", "/opt/share/rttx/schemes", "/home/u/.config/rttx/schemes"]
    );
    assert_eq!(scheme_search_dirs(&[], "rttx-devel", "/c/rttx-devel"), vec!["/c/rttx-devel/schemes"]);
}
