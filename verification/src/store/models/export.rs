//! Single-file configuration export: the bundle of exportable documents,
//! its envelope, and the checks an export file passes before import.

use vstd::prelude::*;

use super::hosts::HostCatalog;
use super::library::Library;
use super::preferences::PreferencesV1;
use super::workspaces::{unbound, WorkspaceRecord, WorkspaceStore};
use crate::store::envelope::{iso8601_from_unix_secs, iso8601_spec, now_unix_secs, Schema, APP_VERSION};
use crate::text::{dec, owned, push_decimal, str_eq};

verus! {

pub const SCHEMA: Schema = Schema::Export;
pub const CURRENT_VERSION: u32 = 1;

/// The schema name an export file carries.
pub const EXPORT_SCHEMA_NAME: &'static str = "rttx.client.export";

#[verifier::external_type_specification]
#[verifier::external_body]
pub struct ExIoError(std::io::Error);

/// Why an export file cannot be imported.
#[derive(Debug)]
pub enum ImportError {
    /// The text is not JSON, or not an export of the known shape.
    InvalidJson(serde_json::Error),
    /// The JSON is not a configuration export.
    WrongSchema,
    /// The file was written by a newer build.
    UnsupportedVersion { found: u32, max: u32 },
    /// The file could not be read.
    IoError(std::io::Error),
}

/// Every exportable document; a missing one is left out of the export.
#[derive(Debug, Clone, PartialEq, Eq)]
pub struct ExportBundle {
    pub preferences: Option<PreferencesV1>,
    pub library: Option<Library>,
    pub hosts: Option<HostCatalog>,
    pub workspaces: Option<WorkspaceStore>,
}

impl Default for ExportBundle {
    fn default() -> (b: Self)
        ensures
            b.preferences is None,
            b.library is None,
            b.hosts is None,
            b.workspaces is None,
    {
        ExportBundle { preferences: None, library: None, hosts: None, workspaces: None }
    }
}

impl ExportBundle {
    /// The bundle as it is written on import: the workspaces lose their
    /// runtime bindings, which belong to the machine that exported them;
    /// everything else is kept.
    pub fn prepared_for_import(self) -> (r: Self)
        ensures
            r.preferences == self.preferences,
            r.library == self.library,
            r.hosts == self.hosts,
            match self.workspaces {
                Some(ws) => r.workspaces matches Some(rws) && rws.active_workspace_id == ws.active_workspace_id
                    && rws.workspaces@ == ws.workspaces@.map_values(|w: WorkspaceRecord| unbound(w)),
                None => r.workspaces is None,
            },
    {
        let ExportBundle { preferences, library, hosts, workspaces } = self;
        let workspaces = match workspaces {
            Some(ws) => Some(ws.without_runtime_refs()),
            None => None,
        };
        ExportBundle { preferences, library, hosts, workspaces }
    }
}

/// The self-describing envelope of an export file.
#[derive(Debug, Clone, PartialEq, Eq)]
pub struct ExportEnvelope {
    pub schema: Schema,
    pub version: u32,
    pub app_version: String,
    pub exported_at: String,
    pub data: ExportBundle,
}

impl ExportEnvelope {
    /// An export envelope stamped with this build's version and the time
    /// `secs` (seconds since the Unix epoch).
    pub fn new_at(data: ExportBundle, secs: u64) -> (e: Self)
        ensures
            e.schema == SCHEMA,
            e.version == CURRENT_VERSION,
            e.app_version@ == APP_VERSION@,
            e.exported_at@ == iso8601_spec(secs as nat),
            e.data == data,
    {
        ExportEnvelope {
            schema: SCHEMA,
            version: CURRENT_VERSION,
            app_version: owned(APP_VERSION),
            exported_at: iso8601_from_unix_secs(secs),
            data,
        }
    }

    /// An export envelope stamped with this build's version and the
    /// current time.
    pub fn new(data: ExportBundle) -> (e: Self)
        ensures
            e.schema == SCHEMA,
            e.version == CURRENT_VERSION,
            e.app_version@ == APP_VERSION@,
            exists|secs: nat| secs <= u64::MAX && e.exported_at@ == iso8601_spec(secs),
            e.data == data,
    {
        let secs = now_unix_secs();
        Self::new_at(data, secs)
    }
}

/// What a file that failed to parse as an export shows of its `schema`.
#[derive(Debug)]
pub enum SchemaProbe {
    /// The text is not JSON at all.
    NotJson(serde_json::Error),
    /// The `schema` field is missing or names something else.
    WrongSchema,
    /// The `schema` field names an export.
    CorrectSchema,
}

/// Classify a file by its `schema` field: `peek` is the result of reading
/// the file as a JSON object, holding the field's text where it is a string.
pub fn schema_probe(peek: Result<Option<String>, serde_json::Error>) -> (r: SchemaProbe)
    ensures
        match peek {
            Err(e) => r == SchemaProbe::NotJson(e),
            Ok(Some(s)) => if s@ == EXPORT_SCHEMA_NAME@ {
                r is CorrectSchema
            } else {
                r is WrongSchema
            },
            Ok(None) => r is WrongSchema,
        },
{
    match peek {
        Err(e) => SchemaProbe::NotJson(e),
        Ok(Some(s)) => if str_eq(s.as_str(), EXPORT_SCHEMA_NAME) {
            SchemaProbe::CorrectSchema
        } else {
            SchemaProbe::WrongSchema
        },
        Ok(None) => SchemaProbe::WrongSchema,
    }
}

/// The outcome of reading an export file.
pub open spec fn export_outcome(parsed: Result<ExportEnvelope, serde_json::Error>, probe: SchemaProbe) -> Result<
    ExportBundle,
    ImportError,
> {
    match parsed {
        Ok(env) => if env.schema != SCHEMA {
            Err(ImportError::WrongSchema)
        } else if env.version > CURRENT_VERSION {
            Err(ImportError::UnsupportedVersion { found: env.version, max: CURRENT_VERSION })
        } else {
            Ok(env.data)
        },
        Err(e) => match probe {
            SchemaProbe::NotJson(pe) => Err(ImportError::InvalidJson(pe)),
            SchemaProbe::WrongSchema => Err(ImportError::WrongSchema),
            SchemaProbe::CorrectSchema => Err(ImportError::InvalidJson(e)),
        },
    }
}

/// Validate an export file before import. `parsed` is the result of
/// reading the file as an export envelope; `probe` classifies the file by
/// its `schema` field and decides the error where `parsed` failed.
///
/// The bundle comes back only from an envelope of the export schema at a
/// version this build supports; missing documents stay missing.
pub fn check_export(parsed: Result<ExportEnvelope, serde_json::Error>, probe: SchemaProbe) -> (r: Result<
    ExportBundle,
    ImportError,
>)
    ensures
        r == export_outcome(parsed, probe),
{
    match parsed {
        Ok(env) => {
            if env.schema != SCHEMA {
                Err(ImportError::WrongSchema)
            } else if env.version > CURRENT_VERSION {
                Err(ImportError::UnsupportedVersion { found: env.version, max: CURRENT_VERSION })
            } else {
                Ok(env.data)
            }
        },
        Err(e) => match probe {
            SchemaProbe::NotJson(pe) => Err(ImportError::InvalidJson(pe)),
            SchemaProbe::WrongSchema => Err(ImportError::WrongSchema),
            SchemaProbe::CorrectSchema => Err(ImportError::InvalidJson(e)),
        },
    }
}

/// The text `serde_json` gives for a parse error (its `Display`).
#[verifier::external_body]
fn json_error_text(e: &serde_json::Error) -> (s: String) {
    e.to_string()
}

/// The text std gives for an I/O error (its `Display`).
#[verifier::external_body]
fn io_error_text(e: &std::io::Error) -> (s: String) {
    e.to_string()
}

/// The user-facing message of a version refusal.
pub open spec fn version_message(found: u32, max: u32) -> Seq<char> {
    "The file was created by a newer version of rttx (format version "@ + dec(found as nat)
        + ", this build supports up to "@ + dec(max as nat) + ")"@
}

impl ImportError {
    /// The message shown to the user. Parse and read errors end with the
    /// underlying error's own text.
    pub fn user_message(&self) -> (m: String)
        ensures
            match *self {
                ImportError::InvalidJson(_) => exists|d: Seq<char>| m@ == "The file is not valid JSON: "@ + d,
                ImportError::WrongSchema => m@ == "The file is not an rttx configuration export"@,
                ImportError::UnsupportedVersion { found, max } => m@ == version_message(found, max),
                ImportError::IoError(_) => exists|d: Seq<char>| m@ == "Could not read the file: "@ + d,
            },
    {
        match self {
            ImportError::InvalidJson(e) => {
                let mut m = owned("The file is not valid JSON: ");
                let d = json_error_text(e);
                m.append(d.as_str());
                m
            },
            ImportError::WrongSchema => owned("The file is not an rttx configuration export"),
            ImportError::UnsupportedVersion { found, max } => {
                let mut m = owned("The file was created by a newer version of rttx (format version ");
                push_decimal(&mut m, *found as u64);
                m.append(", this build supports up to ");
                push_decimal(&mut m, *max as u64);
                m.append(")");
                m
            },
            ImportError::IoError(e) => {
                let mut m = owned("Could not read the file: ");
                let d = io_error_text(e);
                m.append(d.as_str());
                m
            },
        }
    }
}

} // verus!
