//! Layout tree operations.

use rttx::session::layout::{LayoutNode, MAX_SPLIT_DEPTH, SplitOrientation};

fn term(uuid: &str) -> LayoutNode {
    LayoutNode::new_terminal_with_uuid(uuid)
}

fn split_ratio(orientation: SplitOrientation, ratio: f64, first: LayoutNode, second: LayoutNode) -> LayoutNode {
    LayoutNode::Split { orientation, ratio: ratio.to_bits(), first: Box::new(first), second: Box::new(second) }
}

fn hsplit(first: LayoutNode, second: LayoutNode) -> LayoutNode {
    split_ratio(SplitOrientation::Horizontal, 0.5, first, second)
}


fn term_full(uuid: &str, cwd: &str, title: &str) -> LayoutNode {
    LayoutNode::Terminal {
        uuid: uuid.into(),
        profile: None,
        cwd: Some(cwd.into()),
        custom_title: Some(title.into()),
    }
}

#[test]
fn new_terminal_has_valid_uuid() {
    let node = LayoutNode::new_terminal();
    if let LayoutNode::Terminal { uuid, .. } = node {
        assert!(!uuid.is_empty());
    } else {
        panic!("new_terminal must return a Terminal variant");
    }
}

#[test]
fn split_creates_two_children() {
    let node = term("t1");
    let split = node.split(SplitOrientation::Horizontal);
    assert_eq!(split.terminal_count(), 2);
}

#[test]
fn split_preserves_original_terminal() {
    let node = term("t1");
    let split = node.split(SplitOrientation::Horizontal);
    let uuids = split.terminal_uuids();
    assert!(uuids.contains(&"t1".to_string()));
}

#[test]
fn two_new_terminals_have_different_uuids() {
    let t1 = LayoutNode::new_terminal();
    let t2 = LayoutNode::new_terminal();
    if let (LayoutNode::Terminal { uuid: u1, .. }, LayoutNode::Terminal { uuid: u2, .. }) =
        (t1, t2)
    {
        assert_ne!(u1, u2);
    }
}

#[test]
fn terminal_uuids_are_unique() {
    let root = term("t1");
    let split1 = root.split(SplitOrientation::Horizontal);
    let split2 = split1.split(SplitOrientation::Vertical);
    let uuids = split2.terminal_uuids();
    let mut unique = uuids.clone();
    unique.sort();
    unique.dedup();
    assert_eq!(uuids.len(), unique.len());
}

#[test]
fn replace_terminal_uuid_updates_nested_layout() {
    let mut layout = hsplit(term("t1"), term("t2"));
    assert!(layout.replace_terminal_uuid("t2", "daemon-pane"));
    assert_eq!(layout.terminal_uuids(), vec!["t1", "daemon-pane"]);
    assert!(!layout.contains_terminal("t2"));
    assert!(layout.contains_terminal("daemon-pane"));
}

#[test]
fn nested_splits_count_correctly() {
    let root = hsplit(term("t1"), hsplit(term("t2"), term("t3")));
    assert_eq!(root.terminal_count(), 3);
}

#[test]
fn remove_root_terminal_returns_none() {
    let root = term("t1");
    assert!(root.remove_terminal("t1").is_none());
}

#[test]
fn remove_first_child_returns_second() {
    let root = hsplit(term("t1"), term("t2"));
    let result = root.remove_terminal("t1").unwrap();
    assert_eq!(result, term("t2"));
}

#[test]
fn remove_second_child_returns_first() {
    let root = hsplit(term("t1"), term("t2"));
    let result = root.remove_terminal("t2").unwrap();
    assert_eq!(result, term("t1"));
}

#[test]
fn remove_from_nested_preserves_structure() {
    let root = hsplit(term("t1"), hsplit(term("t2"), term("t3")));
    let result = root.remove_terminal("t2").unwrap();
    assert_eq!(result, hsplit(term("t1"), term("t3")));
}

#[test]
fn remove_nonexistent_returns_unchanged() {
    let root = hsplit(term("t1"), term("t2"));
    let result = root.remove_terminal("t3").unwrap();
    assert_eq!(result, root);
}

#[test]
fn split_specific_terminal_in_tree() {
    let root = hsplit(term("t1"), term("t2"));
    let result = root.split_terminal("t2", SplitOrientation::Vertical).unwrap();
    assert_eq!(result.terminal_count(), 3);
    let uuids = result.terminal_uuids();
    assert!(uuids.contains(&"t1".to_string()));
    assert!(uuids.contains(&"t2".to_string()));
}

#[test]
fn split_nonexistent_terminal_returns_none() {
    let root = hsplit(term("t1"), term("t2"));
    assert!(root.split_terminal("t3", SplitOrientation::Vertical).is_none());
}

#[test]
fn split_deeply_nested_terminal() {
    let root = hsplit(term("t1"), hsplit(term("t2"), term("t3")));
    let result = root.split_terminal("t3", SplitOrientation::Vertical).unwrap();
    assert_eq!(result.terminal_count(), 4);
    assert!(result.contains_terminal("t3"));
}

#[test]
fn split_terminal_with_new_uuid_reports_created_terminal() {
    let root = term("t1");
    let (new_tree, new_uuid) =
        root.split_terminal_with_new_uuid("t1", SplitOrientation::Horizontal).unwrap();
    assert_eq!(new_tree.terminal_count(), 2);
    assert!(new_tree.contains_terminal(&new_uuid));
    assert_ne!(new_uuid, "t1");
}

#[test]
fn contains_terminal_works() {
    let root = hsplit(term("t1"), term("t2"));
    assert!(root.contains_terminal("t1"));
    assert!(root.contains_terminal("t2"));
    assert!(!root.contains_terminal("t3"));
}

#[test]
fn depth_of_terminal_returns_path_length_from_root() {
    let root = hsplit(term("t1"), hsplit(term("t2"), term("t3")));
    assert_eq!(root.depth_of_terminal("t1"), Some(2));
    assert_eq!(root.depth_of_terminal("t2"), Some(3));
    assert_eq!(root.depth_of_terminal("t3"), Some(3));
    assert_eq!(root.depth_of_terminal("missing"), None);
}

#[test]
fn depth_of_terminal_at_root_is_one() {
    assert_eq!(term("t1").depth_of_terminal("t1"), Some(1));
}

#[test]
fn split_blocked_beyond_max_depth() {
    let five_deep = hsplit(
        term("t1"),
        hsplit(term("t2"), hsplit(term("t3"), hsplit(term("t4"), term("t5")))),
    );
    assert_eq!(five_deep.depth_of_terminal("t5"), Some(MAX_SPLIT_DEPTH));
    assert!(
        five_deep.split_terminal_with_new_uuid("t5", SplitOrientation::Horizontal).is_none()
    );
}

#[test]
fn split_allowed_at_one_below_max_depth() {
    let four_deep = hsplit(term("t1"), hsplit(term("t2"), hsplit(term("t3"), term("t4"))));
    assert_eq!(four_deep.depth_of_terminal("t4"), Some(MAX_SPLIT_DEPTH - 1));
    assert!(
        four_deep.split_terminal_with_new_uuid("t4", SplitOrientation::Horizontal).is_some()
    );
}

#[test]
fn swap_terminals_exchanges_positions() {
    let mut layout = hsplit(term("t1"), term("t2"));
    layout.swap_terminals("t1", "t2");
    assert_eq!(layout.terminal_uuids(), vec!["t2", "t1"]);
}

#[test]
fn swap_terminals_preserves_count() {
    let mut layout = hsplit(term("t1"), hsplit(term("t2"), term("t3")));
    let count = layout.terminal_count();
    layout.swap_terminals("t1", "t3");
    assert_eq!(layout.terminal_count(), count);
}

#[test]
fn swap_nonexistent_terminal_is_noop() {
    let mut layout = hsplit(term("t1"), term("t2"));
    let before = layout.clone();
    layout.swap_terminals("t1", "t3");
    assert_eq!(layout, before);
}

#[test]
fn swap_same_terminal_is_noop() {
    let mut layout = hsplit(term("t1"), term("t2"));
    let before = layout.clone();
    layout.swap_terminals("t1", "t1");
    assert_eq!(layout, before);
}

#[test]
fn swap_preserves_full_terminal_data() {
    let mut layout =
        hsplit(term_full("t1", "/home/alice", "editor"), term_full("t2", "/tmp", "build"));
    layout.swap_terminals("t1", "t2");

    let uuids = layout.terminal_uuids();
    assert_eq!(uuids, vec!["t2", "t1"]);

    if let LayoutNode::Split { first, second, .. } = &layout {
        if let LayoutNode::Terminal { uuid, cwd, custom_title, .. } = first.as_ref() {
            assert_eq!(uuid, "t2");
            assert_eq!(cwd.as_deref(), Some("/tmp"));
            assert_eq!(custom_title.as_deref(), Some("build"));
        } else {
            panic!("Expected Terminal");
        }
        if let LayoutNode::Terminal { uuid, cwd, custom_title, .. } = second.as_ref() {
            assert_eq!(uuid, "t1");
            assert_eq!(cwd.as_deref(), Some("/home/alice"));
            assert_eq!(custom_title.as_deref(), Some("editor"));
        } else {
            panic!("Expected Terminal");
        }
    } else {
        panic!("Expected Split");
    }
}

#[test]
fn split_preserves_parent_ratio() {
    let layout = split_ratio(SplitOrientation::Horizontal, 0.7, term("t1"), term("t2"));
    let result = layout.split_terminal("t1", SplitOrientation::Vertical).unwrap();
    if let LayoutNode::Split { ratio, .. } = &result {
        assert!(
            (f64::from_bits(*ratio) - 0.7).abs() < f64::EPSILON,
            "Parent ratio changed from 0.7 to {ratio}"
        );
    } else {
        panic!("Expected Split");
    }
}

#[test]
fn remove_preserves_sibling_ratio() {
    let inner = split_ratio(SplitOrientation::Horizontal, 0.3, term("t1"), term("t2"));
    let layout = split_ratio(SplitOrientation::Vertical, 0.7, inner, term("t3"));
    let result = layout.remove_terminal("t1").unwrap();
    if let LayoutNode::Split { ratio, .. } = &result {
        assert!((f64::from_bits(*ratio) - 0.7).abs() < f64::EPSILON, "Outer ratio changed from 0.7 to {ratio}");
    } else {
        panic!("Expected Split");
    }
}

#[test]
fn remove_last_terminal_returns_none_not_empty_tree() {
    let layout = term("only");
    let result = layout.remove_terminal("only");
    assert!(result.is_none(), "Removing the only terminal must return None");
}

#[test]
fn new_terminal_uuid_is_valid_v4() {
    let node = LayoutNode::new_terminal();
    if let LayoutNode::Terminal { uuid, .. } = &node {
        assert!(uuid::Uuid::parse_str(uuid).is_ok(), "UUID '{uuid}' is not valid UUID format");
        assert_eq!(
            uuid::Uuid::parse_str(uuid).unwrap().get_version(),
            Some(uuid::Version::Random),
            "UUID must be v4 (random)"
        );
    }
}

#[test]
fn split_ratio_is_valid() {
    let node = term("t1");
    let split = node.split(SplitOrientation::Horizontal);
    if let LayoutNode::Split { ratio, .. } = &split {
        assert!(f64::from_bits(*ratio) > 0.0 && f64::from_bits(*ratio) < 1.0, "Ratio {ratio} out of (0,1)");
    }
}

#[test]
fn set_terminal_cwd_updates_nested_target_terminal_only() {
    let mut layout = hsplit(
        term_full("t1", "/old/one", "one"),
        split_ratio(
            SplitOrientation::Vertical,
            0.5,
            term_full("t2", "/old/two", "two"),
            term_full("t3", "/old/three", "three"),
        ),
    );

    assert!(layout.set_terminal_cwd("t2", Some("/new/two".into())));

    let LayoutNode::Split { first, second, .. } = &layout else { panic!("expected split") };
    let LayoutNode::Terminal { cwd: first_cwd, .. } = first.as_ref() else {
        panic!("expected terminal");
    };
    assert_eq!(first_cwd.as_deref(), Some("/old/one"));

    let LayoutNode::Split { first: inner_first, second: inner_second, .. } = second.as_ref()
    else {
        panic!("expected nested split");
    };
    let LayoutNode::Terminal { cwd: second_cwd, .. } = inner_first.as_ref() else {
        panic!("expected target terminal");
    };
    let LayoutNode::Terminal { cwd: third_cwd, .. } = inner_second.as_ref() else {
        panic!("expected sibling terminal");
    };
    assert_eq!(second_cwd.as_deref(), Some("/new/two"));
    assert_eq!(third_cwd.as_deref(), Some("/old/three"));
}

#[test]
fn set_terminal_cwd_returns_false_for_unknown_terminal() {
    let mut layout = hsplit(term("t1"), term("t2"));
    assert!(!layout.set_terminal_cwd("missing", Some("/tmp".into())));
}

#[test]
fn terminal_cwd_returns_cwd_for_matching_terminal() {
    let mut layout = hsplit(term("t1"), term("t2"));
    layout.set_terminal_cwd("t2", Some("/home/user".into()));
    assert_eq!(layout.terminal_cwd("t2").as_deref(), Some("/home/user"));
    assert_eq!(layout.terminal_cwd("t1"), None);
    assert_eq!(layout.terminal_cwd("missing"), None);
}

#[test]
fn set_terminal_custom_title_updates_nested_target_terminal_only() {
    let mut layout = hsplit(
        term_full("t1", "/old/one", "one"),
        split_ratio(
            SplitOrientation::Vertical,
            0.5,
            term_full("t2", "/old/two", "two"),
            term_full("t3", "/old/three", "three"),
        ),
    );

    assert!(layout.set_terminal_custom_title("t2", Some("editor".into())));

    let LayoutNode::Split { first, second, .. } = &layout else { panic!("expected split") };
    let LayoutNode::Terminal { custom_title: first_title, .. } = first.as_ref() else {
        panic!("expected terminal");
    };
    assert_eq!(first_title.as_deref(), Some("one"));

    let LayoutNode::Split { first: inner_first, second: inner_second, .. } = second.as_ref()
    else {
        panic!("expected nested split");
    };
    let LayoutNode::Terminal { custom_title: second_title, .. } = inner_first.as_ref() else {
        panic!("expected target terminal");
    };
    let LayoutNode::Terminal { custom_title: third_title, .. } = inner_second.as_ref() else {
        panic!("expected sibling terminal");
    };
    assert_eq!(second_title.as_deref(), Some("editor"));
    assert_eq!(third_title.as_deref(), Some("three"));
}

#[test]
fn terminal_custom_title_returns_title_for_matching_terminal() {
    let mut layout = hsplit(term("t1"), term("t2"));
    layout.set_terminal_custom_title("t2", Some("logs".into()));
    assert_eq!(layout.terminal_custom_title("t2").as_deref(), Some("logs"));
    assert_eq!(layout.terminal_custom_title("t1"), None);
    assert_eq!(layout.terminal_custom_title("missing"), None);
}

#[test]
fn split_then_set_cwd_on_new_terminal() {
    let layout = LayoutNode::Terminal {
        uuid: "t1".into(),
        profile: None,
        cwd: Some("/original".into()),
        custom_title: None,
    };
    let (mut new_layout, new_uuid) =
        layout.split_terminal_with_new_uuid("t1", SplitOrientation::Horizontal).unwrap();

    new_layout.set_terminal_cwd(&new_uuid, Some("/original".into()));

    assert_eq!(new_layout.terminal_cwd(&new_uuid).as_deref(), Some("/original"));
    assert_eq!(new_layout.terminal_cwd("t1").as_deref(), Some("/original"));
}

/// Replacing a UUID must not corrupt sibling terminal metadata.
#[test]
fn replace_uuid_does_not_affect_sibling_cwd_or_title() {
    let mut layout = hsplit(
        term_full("t1", "/home", "editor"),
        term_full("t2", "/tmp", "build"),
    );
    assert!(layout.replace_terminal_uuid("t1", "new-t1"));
    assert_eq!(layout.terminal_cwd("new-t1").as_deref(), Some("/home"));
    assert_eq!(layout.terminal_custom_title("new-t1").as_deref(), Some("editor"));
    assert_eq!(layout.terminal_cwd("t2").as_deref(), Some("/tmp"));
    assert_eq!(layout.terminal_custom_title("t2").as_deref(), Some("build"));
}
