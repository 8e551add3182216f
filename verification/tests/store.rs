//! Client store: envelopes, the load protocol, path roots and documents.

use rttx::commands::{CommandParameter, CommandRunMode, SavedCommand};
use rttx::places::Place;
use rttx::store::models::library::Library;
use rttx::store::client::{migrate_loaded_preferences, ClientStore};
use rttx::store::envelope::{
    date_string_from_unix_secs, days_to_ymd, APP_VERSION, iso8601_from_unix_secs, today_date_string, validate_header,
    DocumentEnvelope, EnvelopeError, EnvelopeHeader, Schema,
};
use rttx::store::io::{after_primary, classify_document, outcome_from_backup, present_value, LoadOutcome, ParseResult, PrimaryRead, PrimaryStep};
use rttx::store::models::preferences::{
    canonical_scheme_name, PreferencesV1, LEGACY_DARK_SCHEME_NAME, LEGACY_LIGHT_SCHEME_NAME,
};
use rttx::store::paths::StorePaths;
use rttx::color_scheme::{load_color_scheme_by_name, BUILTIN_DARK_SCHEME_NAME, BUILTIN_LIGHT_SCHEME_NAME};

#[test]
fn validate_header_accepts_current_version() {
    let header = EnvelopeHeader { schema: Schema::Preferences, version: 1 };
    assert!(validate_header(&header, Schema::Preferences, 1).is_ok());
}

#[test]
fn validate_header_accepts_older_version() {
    let header = EnvelopeHeader { schema: Schema::Preferences, version: 1 };
    assert!(validate_header(&header, Schema::Preferences, 3).is_ok());
}

#[test]
fn validate_header_rejects_future_version() {
    let header = EnvelopeHeader { schema: Schema::Preferences, version: 5 };
    let err = validate_header(&header, Schema::Preferences, 2).unwrap_err();
    assert!(matches!(err, EnvelopeError::UnsupportedVersion { found: 5, max_supported: 2, .. }));
}

#[test]
fn validate_header_rejects_schema_mismatch() {
    let header = EnvelopeHeader { schema: Schema::Hosts, version: 1 };
    let err = validate_header(&header, Schema::Preferences, 1).unwrap_err();
    assert!(matches!(err, EnvelopeError::SchemaMismatch { .. }));
}

#[test]
fn schema_mismatch_reports_both_schemas() {
    let header = EnvelopeHeader { schema: Schema::Ui, version: 9 };
    let err = validate_header(&header, Schema::Library, 1).unwrap_err();
    assert!(matches!(err, EnvelopeError::SchemaMismatch { expected: Schema::Library, found: Schema::Ui }));
}

#[test]
fn envelope_new_stamps_app_version() {
    let env = DocumentEnvelope::new(Schema::Ui, 1, ());
    assert_eq!(env.app_version, APP_VERSION);
    assert_eq!(env.app_version, "0.1.0");
}

#[test]
fn envelope_new_stamps_written_at_as_iso8601() {
    let env = DocumentEnvelope::new(Schema::Ui, 1, ());
    // Should look like YYYY-MM-DDTHH:MM:SSZ
    assert!(env.written_at.ends_with('Z'), "timestamp should end with Z");
    assert_eq!(env.written_at.len(), 20, "ISO 8601 UTC should be 20 chars");
}

#[test]
fn envelope_new_at_keeps_schema_version_and_data() {
    let env = DocumentEnvelope::new_at(Schema::Hosts, 3, vec![1u8, 2], 0);
    assert_eq!(env.schema, Schema::Hosts);
    assert_eq!(env.version, 3);
    assert_eq!(env.data, vec![1u8, 2]);
    assert_eq!(env.written_at, "1970-01-01T00:00:00Z");
}

#[test]
fn days_to_ymd_epoch() {
    assert_eq!(days_to_ymd(0), (1970, 1, 1));
}

#[test]
fn days_to_ymd_known_date() {
    // 2026-04-13 is day 20_556 since epoch
    assert_eq!(days_to_ymd(20_556), (2026, 4, 13));
}

#[test]
fn days_to_ymd_leap_day_and_year_end() {
    // 2024-02-29 is day 19_782; 2023-12-31 is day 19_722; 2000-03-01 is day 11_017.
    assert_eq!(days_to_ymd(19_782), (2024, 2, 29));
    assert_eq!(days_to_ymd(19_722), (2023, 12, 31));
    assert_eq!(days_to_ymd(11_017), (2000, 3, 1));
}

#[test]
fn iso8601_formats_time_of_day() {
    // 2026-04-13T05:06:07Z
    let secs = 20_556u64 * 86_400 + 5 * 3600 + 6 * 60 + 7;
    assert_eq!(iso8601_from_unix_secs(secs), "2026-04-13T05:06:07Z");
    assert_eq!(date_string_from_unix_secs(secs), "2026-04-13");
}

#[test]
fn today_date_string_matches_yyyy_mm_dd_format() {
    let date = today_date_string();
    assert_eq!(date.len(), 10, "date string should be 10 chars: {date}");
    assert_eq!(&date[4..5], "-");
    assert_eq!(&date[7..8], "-");
    let year: u32 = date[..4].parse().expect("year should be numeric");
    let month: u32 = date[5..7].parse().expect("month should be numeric");
    let day: u32 = date[8..10].parse().expect("day should be numeric");
    assert!(year >= 2024);
    assert!((1..=12).contains(&month));
    assert!((1..=31).contains(&day));
}

#[test]
fn load_outcome_into_value_returns_none_for_unsupported() {
    let outcome: LoadOutcome<String> = LoadOutcome::UnsupportedVersion { found: 5, max_supported: 1 };
    assert!(outcome.into_value().is_none());
}

#[test]
fn load_outcome_map_preserves_variant() {
    let loaded: LoadOutcome<i32> = LoadOutcome::Loaded(42);
    let mapped = loaded.map(|v| v.to_string());
    assert!(matches!(mapped, LoadOutcome::Loaded(ref s) if s == "42"));

    let recovered: LoadOutcome<i32> = LoadOutcome::Recovered(7);
    let mapped = recovered.map(|v| v * 2);
    assert!(matches!(mapped, LoadOutcome::Recovered(14)));

    let unsupported: LoadOutcome<i32> = LoadOutcome::UnsupportedVersion { found: 5, max_supported: 1 };
    let mapped = unsupported.map(|v| v + 1);
    assert!(matches!(mapped, LoadOutcome::UnsupportedVersion { found: 5, max_supported: 1 }));
}

#[test]
fn classify_document_outcomes() {
    let ok = EnvelopeHeader { schema: Schema::Preferences, version: 1 };
    assert_eq!(classify_document(Some(ok), Schema::Preferences, 2, Some(7)), ParseResult::Parsed(7));
    assert_eq!(classify_document::<i32>(None, Schema::Preferences, 2, None), ParseResult::Malformed);
    assert_eq!(classify_document(Some(ok), Schema::Hosts, 2, Some(7)), ParseResult::Malformed);
    assert_eq!(classify_document::<i32>(Some(ok), Schema::Preferences, 2, None), ParseResult::Malformed);
    let future = EnvelopeHeader { schema: Schema::Preferences, version: 5 };
    assert_eq!(
        classify_document(Some(future), Schema::Preferences, 2, Some(7)),
        ParseResult::UnsupportedVersion { found: 5, max_supported: 2 }
    );
}

#[test]
fn load_protocol_steps() {
    assert_eq!(after_primary(PrimaryRead::Missing, 0), PrimaryStep::Done(LoadOutcome::Default(0)));
    assert_eq!(after_primary(PrimaryRead::Read(ParseResult::Parsed(3)), 0), PrimaryStep::Done(LoadOutcome::Loaded(3)));
    assert_eq!(
        after_primary(PrimaryRead::Read(ParseResult::UnsupportedVersion { found: 4, max_supported: 1 }), 0),
        PrimaryStep::Done(LoadOutcome::UnsupportedVersion { found: 4, max_supported: 1 })
    );
    assert_eq!(after_primary::<i32>(PrimaryRead::Read(ParseResult::Malformed), 0), PrimaryStep::TryBackup { preserve_primary: true });
    assert_eq!(after_primary::<i32>(PrimaryRead::Unreadable, 0), PrimaryStep::TryBackup { preserve_primary: false });
    assert_eq!(after_primary::<i32>(PrimaryRead::NotText, 0), PrimaryStep::TryBackup { preserve_primary: true });
    assert_eq!(outcome_from_backup(Some(ParseResult::Parsed(9)), 0), LoadOutcome::Recovered(9));
    assert_eq!(outcome_from_backup(Some(ParseResult::Malformed), 0), LoadOutcome::DefaultAfterFailure(0));
    assert_eq!(outcome_from_backup(None, 1), LoadOutcome::DefaultAfterFailure(1));
    assert_eq!(present_value(LoadOutcome::Recovered(2)), Some(2));
    assert_eq!(present_value(LoadOutcome::Default(2)), None);
}

#[test]
fn paths_expose_injected_roots() {
    let paths = StorePaths::new("/c".into(), "/s".into(), "/k".into());
    assert_eq!(paths.config(), "/c");
    assert_eq!(paths.state(), "/s");
    assert_eq!(paths.cache(), "/k");
}

#[test]
fn backups_dir_is_under_state() {
    let paths = StorePaths::new("/c".into(), "/s/client".into(), "/k".into());
    assert_eq!(paths.backups(), "/s/client/backups");
}

#[test]
fn client_store_document_files() {
    let store = ClientStore::new(StorePaths::new("/c".into(), "/s".into(), "/k/".into()));
    assert_eq!(store.preferences_file(), "/c/preferences.json");
    assert_eq!(store.hosts_file(), "/c/hosts.json");
    assert_eq!(store.library_file(), "/c/library.json");
    assert_eq!(store.workspaces_file(), "/s/workspaces.json");
    assert_eq!(store.ui_file(), "/s/ui.json");
    assert_eq!(store.runtime_cache_file(), "/k/runtime-cache.json");
    assert_eq!(store.paths().state(), "/s");
}

#[test]
fn default_palette_names_resolve_to_distinct_schemes() {
    let prefs = PreferencesV1::default();
    let light = load_color_scheme_by_name(&[], &prefs.light_color_scheme)
        .expect("default light palette must name a real scheme");
    let dark = load_color_scheme_by_name(&[], &prefs.dark_color_scheme)
        .expect("default dark palette must name a real scheme");

    assert_eq!(light.name, BUILTIN_LIGHT_SCHEME_NAME);
    assert_eq!(dark.name, BUILTIN_DARK_SCHEME_NAME);
    assert_ne!(light.background, dark.background, "defaults must render differently");
}

#[test]
fn migration_replaces_legacy_bare_names() {
    let mut prefs = PreferencesV1 {
        light_color_scheme: LEGACY_LIGHT_SCHEME_NAME.into(),
        dark_color_scheme: LEGACY_DARK_SCHEME_NAME.into(),
        ..PreferencesV1::default()
    };

    assert!(prefs.migrate_color_scheme_names());
    assert_eq!(prefs.light_color_scheme, BUILTIN_LIGHT_SCHEME_NAME);
    assert_eq!(prefs.dark_color_scheme, BUILTIN_DARK_SCHEME_NAME);
}

#[test]
fn migration_splits_collapsed_palettes() {
    let mut prefs = PreferencesV1 {
        light_color_scheme: BUILTIN_LIGHT_SCHEME_NAME.into(),
        dark_color_scheme: BUILTIN_LIGHT_SCHEME_NAME.into(),
        ..PreferencesV1::default()
    };

    assert!(prefs.migrate_color_scheme_names());
    assert_eq!(prefs.light_color_scheme, BUILTIN_LIGHT_SCHEME_NAME);
    assert_eq!(prefs.dark_color_scheme, BUILTIN_DARK_SCHEME_NAME);
}

#[test]
fn migration_keeps_distinct_custom_palettes() {
    let mut prefs = PreferencesV1 {
        light_color_scheme: "Solarized Light".into(),
        dark_color_scheme: "Solarized Dark".into(),
        ..PreferencesV1::default()
    };

    assert!(!prefs.migrate_color_scheme_names());
    assert_eq!(prefs.light_color_scheme, "Solarized Light");
    assert_eq!(prefs.dark_color_scheme, "Solarized Dark");
}

#[test]
fn migration_is_idempotent() {
    let mut prefs = PreferencesV1 {
        light_color_scheme: LEGACY_LIGHT_SCHEME_NAME.into(),
        dark_color_scheme: LEGACY_LIGHT_SCHEME_NAME.into(),
        ..PreferencesV1::default()
    };

    assert!(prefs.migrate_color_scheme_names());
    assert!(!prefs.migrate_color_scheme_names());
    assert_eq!(prefs.light_color_scheme, BUILTIN_LIGHT_SCHEME_NAME);
    assert_eq!(prefs.dark_color_scheme, BUILTIN_DARK_SCHEME_NAME);
}

#[test]
fn canonical_scheme_name_maps_only_legacy_names() {
    assert_eq!(canonical_scheme_name("Daybreak"), BUILTIN_LIGHT_SCHEME_NAME);
    assert_eq!(canonical_scheme_name("Nightfall"), BUILTIN_DARK_SCHEME_NAME);
    assert_eq!(canonical_scheme_name("Tango"), "Tango");
}

#[test]
fn older_documents_are_migrated_and_rewritten() {
    let doc = PreferencesV1 {
        light_color_scheme: LEGACY_LIGHT_SCHEME_NAME.into(),
        dark_color_scheme: LEGACY_DARK_SCHEME_NAME.into(),
        ..PreferencesV1::default()
    };
    let (outcome, rewrite) = migrate_loaded_preferences(LoadOutcome::Loaded(doc.clone()), Some(1));
    assert!(rewrite);
    let migrated = outcome.into_value().unwrap();
    assert_eq!(migrated.light_color_scheme, BUILTIN_LIGHT_SCHEME_NAME);
    assert_eq!(migrated.dark_color_scheme, BUILTIN_DARK_SCHEME_NAME);

    let (outcome, rewrite) = migrate_loaded_preferences(LoadOutcome::Loaded(doc.clone()), Some(2));
    assert!(!rewrite);
    assert_eq!(outcome, LoadOutcome::Loaded(doc.clone()));

    let (outcome, rewrite) = migrate_loaded_preferences(LoadOutcome::Default(doc.clone()), Some(1));
    assert!(!rewrite);
    assert_eq!(outcome, LoadOutcome::Default(doc));
}

#[test]
fn library_document_keeps_place_and_command_fields() {
    let place = Place { uuid: "fixed-uuid-1".into(), name: "Test".into(), path: "/test".into(), host_tags: vec!["local".into()] };
    let mut cmd = SavedCommand::new("Insert", "echo hi");
    cmd.uuid = "fixed-uuid-2".into();
    cmd.default_run_mode = CommandRunMode::Insert;
    cmd.host_tags = vec!["local".into(), "example.com".into()];
    let lib = Library::from_items(&[place.clone()], &[cmd]);
    assert_eq!(lib.places[0].id, "fixed-uuid-1");
    assert_eq!(lib.commands[0].id, "fixed-uuid-2");
    let (places, commands) = lib.to_items();
    assert_eq!(places, vec![place]);
    assert_eq!(commands[0].uuid, "fixed-uuid-2");
    assert_eq!(commands[0].title, "Insert");
    assert_eq!(commands[0].body, "echo hi");
    assert_eq!(commands[0].default_run_mode, CommandRunMode::Insert);
    assert_eq!(commands[0].host_tags, vec!["local", "example.com"]);
    assert!(commands[0].parameters.is_empty());
    let mut full = SavedCommand::new("Deploy", "make");
    full.description = "Ship it".into();
    full.labels = vec!["ops".into()];
    full.shortcut_keys = vec!["d".into(), "k".into()];
    let (_, back) = Library::from_items(&[], &[full.clone()]).to_items();
    assert_eq!(back, vec![full]);
}

#[test]
fn library_preserves_command_parameters() {
    let cmd = SavedCommand {
        uuid: "param-test".into(),
        title: "Deploy".into(),
        body: "deploy --env $ENV".into(),
        default_run_mode: CommandRunMode::Run,
        host_tags: vec![],
        parameters: vec![
            CommandParameter {
                description: String::new(),
                name: "ENV".into(),
                label: "Environment".into(),
                choices: vec!["staging".into(), "prod".into()],
                default: Some("staging".into()),
            },
            CommandParameter {
                description: String::new(),
                name: "REGION".into(),
                label: "Region".into(),
                choices: vec!["us-east-1".into(), "eu-west-1".into()],
                default: None,
            },
        ],
        description: String::new(),
        labels: vec![],
        shortcut_keys: vec![],
    };
    let (_, loaded) = Library::from_items(&[], &[cmd]).to_items();
    assert_eq!(loaded.len(), 1);
    assert_eq!(loaded[0].parameters.len(), 2);
    assert_eq!(loaded[0].parameters[0].name, "ENV");
    assert_eq!(loaded[0].parameters[0].choices, vec!["staging", "prod"]);
    assert_eq!(loaded[0].parameters[0].default, Some("staging".into()));
    assert_eq!(loaded[0].parameters[1].name, "REGION");
    assert_eq!(loaded[0].parameters[1].default, None);
}
