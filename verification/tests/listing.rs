//! Sectioned picker lists: places and existing workspaces.

use rttx::connect_existing::{session_icon_name, session_rows, session_section_title, RuntimeAvailability, RuntimeEntry};
use rttx::listing::{sectioned_rows, ListRow};
use rttx::places::{builtins, is_builtin, place_rows, place_section_title, Place};

fn entry(name: &str, availability: RuntimeAvailability) -> RuntimeEntry {
    RuntimeEntry { id: name.into(), name: name.into(), pane_count: 1, availability, status_label: "1 pane".into() }
}

#[test]
fn sectioned_rows_put_headers_before_first_item_of_each_group() {
    let rows = sectioned_rows(&[true, false, true, true, true], &[true, true, true, false, true]);
    assert_eq!(
        rows,
        vec![ListRow::Header(true), ListRow::Item(0), ListRow::Item(2), ListRow::Header(false), ListRow::Item(3), ListRow::Item(4)]
    );
    assert!(sectioned_rows(&[false, false], &[true, false]).is_empty());
}

#[test]
fn place_rows_split_suggested_and_saved() {
    let mut visible = builtins();
    visible.push(Place { uuid: "p-1".into(), name: "Src".into(), path: "~/src".into(), host_tags: vec![] });
    assert!(is_builtin(&visible[0]));
    assert!(!is_builtin(&visible[2]));
    assert_eq!(
        place_rows(&visible, ""),
        vec![ListRow::Header(true), ListRow::Item(0), ListRow::Item(1), ListRow::Header(false), ListRow::Item(2)]
    );
    assert_eq!(place_rows(&visible, "SRC"), vec![ListRow::Header(false), ListRow::Item(2)]);
    assert!(place_rows(&visible, "nothing-like-this").is_empty());
    assert_eq!(place_section_title(true), "Suggested");
    assert_eq!(place_section_title(false), "Saved Places");
}

#[test]
fn session_rows_split_available_and_busy() {
    let entries = vec![
        entry("alpha", RuntimeAvailability::BusyElsewhere),
        entry("beta", RuntimeAvailability::Available),
        entry("gamma", RuntimeAvailability::AlreadyOpen),
    ];
    assert_eq!(
        session_rows(&entries, ""),
        vec![ListRow::Header(false), ListRow::Item(0), ListRow::Header(true), ListRow::Item(1), ListRow::Item(2)]
    );
    assert_eq!(session_rows(&entries, " BETA "), vec![ListRow::Header(true), ListRow::Item(1)]);
    assert!(session_rows(&entries, "delta").is_empty());
    assert_eq!(session_section_title(true), "Available");
    assert_eq!(session_section_title(false), "Busy");
    assert_eq!(session_icon_name(true), "media-playback-start-symbolic");
    assert_eq!(session_icon_name(false), "changes-prevent-symbolic");
}
