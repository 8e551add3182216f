//! Saved commands: search, visibility, ordering and parameter rendering.

use rttx::commands::{CommandParameter, CommandRunMode, SavedCommand, collect_labels, is_visible_on, matches_labels, matches_query, render_env_block, reorder, resolve_default, shell_escape, visible_for_host};

#[test]
fn matches_query_checks_title_and_body() {
    let command = SavedCommand::new("Tail logs", "journalctl -fu app.service");
    assert!(matches_query(&command, "tail"));
    assert!(matches_query(&command, "journalctl"));
    assert!(!matches_query(&command, "deploy"));
}

#[test]
fn matches_query_searches_description() {
    let mut command = SavedCommand::new("Deploy", "cargo build");
    command.description = "Builds and deploys the production service".into();
    assert!(matches_query(&command, "production"));
    assert!(!matches_query(&command, "staging"));
}

#[test]
fn blank_query_matches_all_commands() {
    let command = SavedCommand::new("Anything", "echo hi");
    assert!(matches_query(&command, ""));
    assert!(matches_query(&command, "   "));
}

#[test]
fn run_mode_appends_newline_but_insert_does_not() {
    let command = SavedCommand::new("Build", "cargo test\ncargo clippy");
    assert_eq!(command.input_for(CommandRunMode::Run), "cargo test\ncargo clippy\n");
    assert_eq!(command.input_for(CommandRunMode::Insert), "cargo test\ncargo clippy");
}

#[test]
fn run_in_new_pane_appends_newline_like_run() {
    let command = SavedCommand::new("Build", "cargo test\ncargo clippy");
    assert_eq!(command.input_for(CommandRunMode::RunInNewPane), "cargo test\ncargo clippy\n");
}

#[test]
fn preview_uses_first_non_empty_line_verbatim() {
    let command = SavedCommand::new("Build", "cargo test\ncargo clippy");
    assert_eq!(command.preview(), "cargo test");
}

#[test]
fn commands_reorder_moves_item_to_target_position() {
    let mut items = vec![
        SavedCommand { uuid: "a".into(), ..SavedCommand::new("A", "echo a") },
        SavedCommand { uuid: "b".into(), ..SavedCommand::new("B", "echo b") },
        SavedCommand { uuid: "c".into(), ..SavedCommand::new("C", "echo c") },
    ];

    reorder(&mut items, "c", "a");
    let uuids: Vec<&str> = items.iter().map(|c| c.uuid.as_str()).collect();
    assert_eq!(uuids, vec!["c", "a", "b"]);
}

#[test]
fn commands_reorder_noop_for_unknown_uuid() {
    let mut items = vec![
        SavedCommand { uuid: "a".into(), ..SavedCommand::new("A", "echo a") },
        SavedCommand { uuid: "b".into(), ..SavedCommand::new("B", "echo b") },
    ];

    reorder(&mut items, "z", "a");
    let uuids: Vec<&str> = items.iter().map(|c| c.uuid.as_str()).collect();
    assert_eq!(uuids, vec!["a", "b"]);
}

// ── Host tags ───────────────────────────────────────────────

#[test]
fn new_command_has_empty_host_tags() {
    let command = SavedCommand::new("Test", "echo test");
    assert!(command.host_tags.is_empty());
}

#[test]
fn matches_query_searches_host_tags() {
    let mut command = SavedCommand::new("Deploy", "cargo build");
    command.host_tags = vec!["example.com".into()];
    assert!(matches_query(&command, "example"));
    assert!(!matches_query(&command, "staging"));
}

#[test]
fn is_visible_on_global_command_visible_everywhere() {
    let command = SavedCommand::new("Global", "echo hi");
    assert!(is_visible_on(&command, "local"));
    assert!(is_visible_on(&command, "example.com"));
}

#[test]
fn is_visible_on_tagged_command_visible_only_on_matching_host() {
    let mut command = SavedCommand::new("Local only", "echo hi");
    command.host_tags = vec!["local".into()];
    assert!(is_visible_on(&command, "local"));
    assert!(!is_visible_on(&command, "example.com"));
}

#[test]
fn is_visible_on_multi_tagged_command() {
    let mut command = SavedCommand::new("Multi", "echo hi");
    command.host_tags = vec!["local".into(), "example.com".into()];
    assert!(is_visible_on(&command, "local"));
    assert!(is_visible_on(&command, "example.com"));
    assert!(!is_visible_on(&command, "other.com"));
}

#[test]
fn visible_for_host_returns_matching_commands() {
    let mut local_cmd = SavedCommand::new("Local", "echo local");
    local_cmd.host_tags = vec!["local".into()];
    let mut remote_cmd = SavedCommand::new("Remote", "echo remote");
    remote_cmd.host_tags = vec!["example.com".into()];
    let global_cmd = SavedCommand::new("Global", "echo global");

    let saved = vec![local_cmd, remote_cmd, global_cmd];
    let visible = visible_for_host(&saved, "local");
    let names: Vec<&str> = visible.iter().map(|c| c.title.as_str()).collect();
    assert_eq!(names, vec!["Local", "Global"]);
}

#[test]
fn visible_for_host_with_no_commands_returns_empty() {
    let visible = visible_for_host(&[], "local");
    assert!(visible.is_empty());
}

// ── Parameters ──────────────────────────────────────────────

#[test]
fn shell_escape_plain_value() {
    assert_eq!(shell_escape("prod"), "'prod'");
}

#[test]
fn shell_escape_value_with_spaces() {
    assert_eq!(shell_escape("hello world"), "'hello world'");
}

#[test]
fn shell_escape_value_with_single_quotes() {
    assert_eq!(shell_escape("it's"), "'it'\\''s'");
}

#[test]
fn shell_escape_value_with_dollar_sign() {
    assert_eq!(shell_escape("$HOME"), "'$HOME'");
}

#[test]
fn shell_escape_value_with_semicolons_and_newlines() {
    assert_eq!(shell_escape("a;b\nc"), "'a;b\nc'");
}

#[test]
fn shell_escape_empty_string() {
    assert_eq!(shell_escape(""), "''");
}

#[test]
fn render_env_block_single_parameter() {
    let result =
        render_env_block("systemctl restart $SERVICE", &[("SERVICE".into(), "api".into())]);
    assert_eq!(result, "(\nexport SERVICE='api'\nsystemctl restart $SERVICE\n)");
}

#[test]
fn render_env_block_multiple_parameters_preserves_order() {
    let result = render_env_block(
        "kubectl logs -n $NS $POD",
        &[("NS".into(), "prod".into()), ("POD".into(), "web-1".into())],
    );
    assert_eq!(result, "(\nexport NS='prod'\nexport POD='web-1'\nkubectl logs -n $NS $POD\n)");
}

#[test]
fn render_env_block_body_with_trailing_newline() {
    let result = render_env_block("echo done\n", &[("X".into(), "1".into())]);
    assert_eq!(result, "(\nexport X='1'\necho done\n)");
}

#[test]
fn render_env_block_escapes_values() {
    let result = render_env_block("echo $MSG", &[("MSG".into(), "it's a test".into())]);
    assert_eq!(result, "(\nexport MSG='it'\\''s a test'\necho $MSG\n)");
}

#[test]
fn resolve_default_uses_declared_default_when_in_choices() {
    let param = CommandParameter {
        name: "ENV".into(),
        label: "Environment".into(),
        choices: vec!["dev".into(), "staging".into(), "prod".into()],
        default: Some("staging".into()),
        description: String::new(),
    };
    assert_eq!(resolve_default(&param), "staging");
}

#[test]
fn resolve_default_falls_back_to_first_choice_when_default_not_in_choices() {
    let param = CommandParameter {
        name: "ENV".into(),
        label: "Environment".into(),
        choices: vec!["dev".into(), "prod".into()],
        default: Some("staging".into()),
        description: String::new(),
    };
    assert_eq!(resolve_default(&param), "dev");
}

#[test]
fn resolve_default_falls_back_to_first_choice_when_no_default() {
    let param = CommandParameter {
        name: "ENV".into(),
        label: "Environment".into(),
        choices: vec!["dev".into(), "prod".into()],
        default: None,
        description: String::new(),
    };
    assert_eq!(resolve_default(&param), "dev");
}

#[test]
fn resolve_default_returns_empty_when_no_choices() {
    let param = CommandParameter {
        name: "ENV".into(),
        label: "Environment".into(),
        choices: vec![],
        default: None,
        description: String::new(),
    };
    assert_eq!(resolve_default(&param), "");
}

#[test]
fn duplicate_creates_new_uuid_and_copy_title() {
    let mut original = SavedCommand::new("Deploy", "cargo build");
    original.parameters = vec![CommandParameter {
        name: "ENV".into(),
        label: "Environment".into(),
        choices: vec!["prod".into()],
        default: None,
        description: String::new(),
    }];
    original.description = "Deploys the app".into();
    original.labels = vec!["deploy".into()];

    let copy = original.duplicate();
    assert_ne!(copy.uuid, original.uuid);
    assert_eq!(copy.title, "Deploy (copy)");
    assert_eq!(copy.body, original.body);
    assert_eq!(copy.parameters, original.parameters);
    assert_eq!(copy.description, original.description);
    assert_eq!(copy.labels, original.labels);
    assert_eq!(copy.host_tags, original.host_tags);
}

#[test]
fn has_parameters_returns_false_for_plain_command() {
    let command = SavedCommand::new("Test", "echo hi");
    assert!(!command.has_parameters());
}

#[test]
fn has_parameters_returns_true_when_parameters_present() {
    let mut command = SavedCommand::new("Test", "echo $X");
    command.parameters = vec![CommandParameter {
        name: "X".into(),
        label: "X".into(),
        choices: vec!["1".into()],
        default: None,
        description: String::new(),
    }];
    assert!(command.has_parameters());
}

// ── Label filtering ─────────────────────────────────────────

#[test]
fn matches_query_searches_labels() {
    let mut command = SavedCommand::new("Deploy", "cargo build");
    command.labels = vec!["ops".into(), "deploy".into()];
    assert!(matches_query(&command, "ops"));
    assert!(matches_query(&command, "deploy"));
    assert!(!matches_query(&command, "diag"));
}

#[test]
fn matches_labels_empty_filter_matches_all() {
    let command = SavedCommand::new("Test", "echo hi");
    assert!(matches_labels(&command, &[]));
}

#[test]
fn matches_labels_returns_true_when_command_has_matching_label() {
    let mut command = SavedCommand::new("Deploy", "cargo build");
    command.labels = vec!["ops".into(), "deploy".into()];
    assert!(matches_labels(&command, &["ops".into()]));
    assert!(matches_labels(&command, &["deploy".into()]));
}

#[test]
fn matches_labels_returns_false_when_no_match() {
    let mut command = SavedCommand::new("Deploy", "cargo build");
    command.labels = vec!["ops".into()];
    assert!(!matches_labels(&command, &["diag".into()]));
}

#[test]
fn matches_labels_unlabeled_command_excluded_when_filter_active() {
    let command = SavedCommand::new("Plain", "echo hi");
    assert!(!matches_labels(&command, &["ops".into()]));
}

#[test]
fn collect_labels_returns_sorted_unique_labels() {
    let mut c1 = SavedCommand::new("A", "echo a");
    c1.labels = vec!["deploy".into(), "ops".into()];
    let mut c2 = SavedCommand::new("B", "echo b");
    c2.labels = vec!["ops".into(), "diag".into()];
    let c3 = SavedCommand::new("C", "echo c");

    let labels = collect_labels(&[c1, c2, c3]);
    assert_eq!(labels, vec!["deploy", "diag", "ops"]);
}

#[test]
fn collect_labels_empty_commands_returns_empty() {
    let labels = collect_labels(&[]);
    assert!(labels.is_empty());
}

#[test]
fn duplicate_preserves_shortcut_keys() {
    let mut original = SavedCommand::new("Deploy", "cargo build");
    original.shortcut_keys = vec!["d".into()];
    let copy = original.duplicate();
    assert_eq!(copy.shortcut_keys, vec!["d"]);
}

#[test]
fn duplicate_preserves_parameter_description() {
    let mut original = SavedCommand::new("Deploy", "cargo build");
    original.parameters = vec![CommandParameter {
        name: "ENV".into(),
        label: "Environment".into(),
        choices: vec!["prod".into()],
        default: None,
        description: "Target deployment environment".into(),
    }];
    let copy = original.duplicate();
    assert_eq!(copy.parameters[0].description, "Target deployment environment");
}

#[test]
fn duplicate_command_preserves_parameters() {
    let mut cmd = SavedCommand::new("Deploy", "deploy --env $ENV");
    cmd.parameters = vec![CommandParameter {
        description: String::new(),
        name: "ENV".into(),
        label: "Environment".into(),
        choices: vec!["staging".into(), "prod".into()],
        default: Some("staging".into()),
    }];
    let copy = cmd.duplicate();
    assert_eq!(copy.parameters.len(), 1);
    assert_eq!(copy.parameters[0].name, "ENV");
    assert_eq!(copy.parameters[0].choices, vec!["staging", "prod"]);
    assert_ne!(copy.uuid, cmd.uuid, "duplicate must have a new UUID");
}
