//! Export bundles: import preparation, export file checks and messages.

use rttx::session::layout::{LayoutNode as SessionLayout, SplitOrientation as SessionOrientation};
use rttx::store::envelope::{Schema, APP_VERSION};
use rttx::store::models::export::{
    check_export, schema_probe, ExportBundle, ExportEnvelope, ImportError, SchemaProbe, CURRENT_VERSION,
};
use rttx::store::models::preferences::PreferencesV1;
use rttx::store::models::workspaces::{
    InputSyncState, LayoutNode, RuntimeAttachmentKind, RuntimeRef, SplitOrientation, WorkspaceColor,
    WorkspacePolicy, WorkspaceRecord, WorkspaceStore,
};
use rttx::str_map::StrMap;

fn json_error() -> serde_json::Error {
    serde_json::from_str::<serde_json::Value>("{{bad").unwrap_err()
}

fn record(id: &str, runtime_ref: Option<RuntimeRef>) -> WorkspaceRecord {
    WorkspaceRecord {
        id: id.into(),
        name: "Dev".into(),
        user_renamed: false,
        endpoint_key: "local".into(),
        policy: WorkspacePolicy::Persistent,
        runtime_ref,
        layout: LayoutNode::Terminal { uuid: "t-1".into(), profile: None, cwd: Some("/home/user".into()), custom_title: None },
        active_pane_id: Some("t-1".into()),
        zoomed_pane_id: None,
        input_sync: InputSyncState::Off,
        color: WorkspaceColor::Green,
        pane_recovery: StrMap::new(),
    }
}

fn envelope(schema: Schema, version: u32, data: ExportBundle) -> ExportEnvelope {
    ExportEnvelope {
        schema,
        version,
        app_version: "0.4.0".into(),
        exported_at: "2026-01-01T00:00:00Z".into(),
        data,
    }
}

#[test]
fn export_envelope_is_stamped_with_schema_and_version() {
    let env = ExportEnvelope::new(ExportBundle::default());
    assert_eq!(env.schema, Schema::Export);
    assert_eq!(env.version, 1);
    assert_eq!(env.app_version, APP_VERSION);
    assert!(env.exported_at.ends_with('Z'));
}

#[test]
fn export_envelope_at_fixed_time() {
    let env = ExportEnvelope::new_at(ExportBundle::default(), 0);
    assert_eq!(env.exported_at, "1970-01-01T00:00:00Z");
}

#[test]
fn prepared_bundle_clears_runtime_ref() {
    let bound = Some(RuntimeRef { runtime_id: "rt-1".into(), attachment_kind: RuntimeAttachmentKind::Attached });
    let bundle = ExportBundle {
        preferences: Some(PreferencesV1 { scrollback_lines: 9999, ..Default::default() }),
        library: None,
        hosts: None,
        workspaces: Some(WorkspaceStore {
            active_workspace_id: Some("ws-1".into()),
            workspaces: vec![record("ws-1", bound), record("ws-2", None)],
        }),
    };
    let prepared = bundle.clone().prepared_for_import();
    assert_eq!(prepared.preferences.as_ref().unwrap().scrollback_lines, 9999);
    assert!(prepared.library.is_none());
    let ws = prepared.workspaces.unwrap();
    assert_eq!(ws.active_workspace_id.as_deref(), Some("ws-1"));
    assert_eq!(ws.workspaces.len(), 2);
    assert!(ws.workspaces.iter().all(|w| w.runtime_ref.is_none()));
    assert_eq!(ws.workspaces[1], record("ws-2", None));
    assert_eq!(ws.workspaces[0].id, "ws-1");
}

#[test]
fn prepared_bundle_keeps_missing_documents_missing() {
    let prepared = ExportBundle::default().prepared_for_import();
    assert_eq!(prepared, ExportBundle::default());
}

#[test]
fn check_export_accepts_valid_envelope() {
    let data = ExportBundle { preferences: Some(PreferencesV1::default()), ..Default::default() };
    let bundle = check_export(Ok(envelope(Schema::Export, 1, data)), SchemaProbe::CorrectSchema).unwrap();
    assert!(bundle.preferences.is_some());
    assert!(bundle.library.is_none());
}

#[test]
fn check_export_accepts_empty_data() {
    let bundle = check_export(Ok(envelope(Schema::Export, 1, ExportBundle::default())), SchemaProbe::CorrectSchema)
        .unwrap();
    assert!(bundle.preferences.is_none());
    assert!(bundle.library.is_none());
    assert!(bundle.hosts.is_none());
    assert!(bundle.workspaces.is_none());
}

#[test]
fn check_export_rejects_other_document_schema() {
    let err = check_export(Ok(envelope(Schema::Preferences, 1, ExportBundle::default())), SchemaProbe::WrongSchema)
        .unwrap_err();
    assert!(matches!(err, ImportError::WrongSchema));
    assert!(err.user_message().contains("not an rttx configuration export"));
}

#[test]
fn check_export_rejects_unsupported_version() {
    let err = check_export(Ok(envelope(Schema::Export, 99, ExportBundle::default())), SchemaProbe::CorrectSchema)
        .unwrap_err();
    assert!(matches!(err, ImportError::UnsupportedVersion { found: 99, max: 1 }));
    assert_eq!(CURRENT_VERSION, 1);
    let msg = err.user_message();
    assert!(msg.contains("newer version"));
    assert!(msg.contains("99"));
}

#[test]
fn check_export_reports_text_that_is_not_json() {
    let probe = schema_probe(Err(json_error()));
    assert!(matches!(probe, SchemaProbe::NotJson(_)));
    let err = check_export(Err(json_error()), probe).unwrap_err();
    assert!(matches!(err, ImportError::InvalidJson(_)));
    assert!(err.user_message().contains("not valid JSON"));
}

#[test]
fn check_export_reports_unknown_schema_string_as_wrong_schema() {
    let probe = schema_probe(Ok(Some("some.other.app".into())));
    assert!(matches!(probe, SchemaProbe::WrongSchema));
    let err = check_export(Err(json_error()), probe).unwrap_err();
    assert!(matches!(err, ImportError::WrongSchema));
}

#[test]
fn check_export_reports_missing_schema_field_as_wrong_schema() {
    let probe = schema_probe(Ok(None));
    assert!(matches!(probe, SchemaProbe::WrongSchema));
    let err = check_export(Err(json_error()), probe).unwrap_err();
    assert!(matches!(err, ImportError::WrongSchema));
}

#[test]
fn check_export_reports_malformed_export_as_invalid_json() {
    let probe = schema_probe(Ok(Some("rttx.client.export".into())));
    assert!(matches!(probe, SchemaProbe::CorrectSchema));
    let err = check_export(Err(json_error()), probe).unwrap_err();
    assert!(matches!(err, ImportError::InvalidJson(_)));
}

#[test]
fn import_error_display_messages_are_user_facing() {
    let json_err = check_export(Err(json_error()), schema_probe(Err(json_error()))).unwrap_err();
    let msg = json_err.user_message();
    assert!(msg.starts_with("The file is not valid JSON"));

    let schema_err = ImportError::WrongSchema;
    assert_eq!(schema_err.user_message(), "The file is not an rttx configuration export");

    let version_err = ImportError::UnsupportedVersion { found: 5, max: 1 };
    let msg = version_err.user_message();
    assert!(msg.contains("newer version of rttx"));
    assert!(msg.contains("format version 5"));
    assert!(msg.contains("up to 1"));
    assert_eq!(
        msg,
        "The file was created by a newer version of rttx (format version 5, this build supports up to 1)"
    );

    let io_err = ImportError::IoError(std::io::Error::new(std::io::ErrorKind::NotFound, "file not found"));
    assert!(io_err.user_message().contains("Could not read the file"));
    assert!(io_err.user_message().ends_with("file not found"));
}

#[test]
fn stored_layout_round_trips_through_session_layout() {
    let session = SessionLayout::new_terminal_with_uuid("a")
        .split_terminal_with_uuid("a", SessionOrientation::Vertical, "b")
        .unwrap();
    let stored = LayoutNode::from_layout(&session);
    match &stored {
        LayoutNode::Split { orientation, ratio, first, second } => {
            assert_eq!(*orientation, SplitOrientation::Vertical);
            assert_eq!(f64::from_bits(*ratio), 0.5);
            assert!(matches!(first.as_ref(), LayoutNode::Terminal { uuid, .. } if uuid == "a"));
            assert!(matches!(second.as_ref(), LayoutNode::Terminal { uuid, .. } if uuid == "b"));
        }
        LayoutNode::Terminal { .. } => panic!("expected a split"),
    }
    assert_eq!(stored.to_layout(), session);
}

#[test]
fn stored_workspace_rebuilds_runtime_metadata() {
    let local = record("ws-1", None);
    let rt = local.to_runtime();
    assert!(!rt.managed);
    assert!(rt.pane_bindings.is_empty());
    let bound = record("ws-2", Some(RuntimeRef { runtime_id: "rt-9".into(), attachment_kind: RuntimeAttachmentKind::Created }));
    let rt = bound.to_runtime();
    assert!(rt.managed);
    assert_eq!(rt.runtime_id.as_deref(), Some("rt-9"));
    assert_eq!(rt.pane_bindings.get("t-1").map(|s| s.as_str()), Some("t-1"));
    assert!(rt.pending_layout_panes.contains("t-1"));
    let mut remote = record("ws-3", None);
    remote.endpoint_key = "example.com".into();
    remote.policy = WorkspacePolicy::Ephemeral;
    let rt = remote.to_runtime();
    assert!(rt.managed);
    assert_eq!(rt.endpoint, rttx::runtime::RuntimeEndpoint::Remote { host: "example.com".into() });
    assert_eq!(rt.policy, rttx::runtime::WorkspacePolicy::Ephemeral);
}
