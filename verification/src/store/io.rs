//! The load protocol's decisions for client documents.
//!
//! - Missing file: the default.
//! - Malformed primary: preserve it in `backups/`, try the `.bak` copy, and
//!   report the recovery.
//! - Malformed primary and no usable backup: the default, after failure.
//! - Unsupported future version: refuse (the file is not overwritten).

use vstd::prelude::*;

use super::envelope::{validate_header, EnvelopeError, EnvelopeHeader, Schema};

verus! {

/// Outcome of loading a document.
#[derive(Debug, PartialEq, Eq)]
pub enum LoadOutcome<T> {
    /// Loaded successfully from the primary file.
    Loaded(T),
    /// Primary was malformed; recovered from backup.
    Recovered(T),
    /// File did not exist; returned the default.
    Default(T),
    /// Both primary and backup were unusable; returned the default.
    /// The malformed file was preserved in `backups/`.
    DefaultAfterFailure(T),
    /// The document version is newer than this client supports.
    /// The file was not modified.
    UnsupportedVersion { found: u32, max_supported: u32 },
}

/// The value an outcome carries, if any.
pub open spec fn outcome_value<T>(o: LoadOutcome<T>) -> Option<T> {
    match o {
        LoadOutcome::Loaded(v) => Some(v),
        LoadOutcome::Recovered(v) => Some(v),
        LoadOutcome::Default(v) => Some(v),
        LoadOutcome::DefaultAfterFailure(v) => Some(v),
        LoadOutcome::UnsupportedVersion { .. } => None,
    }
}

/// Whether two outcomes are the same variant (with the same version
/// numbers when refused).
pub open spec fn same_variant<T, U>(a: LoadOutcome<T>, b: LoadOutcome<U>) -> bool {
    match (a, b) {
        (LoadOutcome::Loaded(_), LoadOutcome::Loaded(_)) => true,
        (LoadOutcome::Recovered(_), LoadOutcome::Recovered(_)) => true,
        (LoadOutcome::Default(_), LoadOutcome::Default(_)) => true,
        (LoadOutcome::DefaultAfterFailure(_), LoadOutcome::DefaultAfterFailure(_)) => true,
        (
            LoadOutcome::UnsupportedVersion { found: f1, max_supported: m1 },
            LoadOutcome::UnsupportedVersion { found: f2, max_supported: m2 },
        ) => f1 == f2 && m1 == m2,
        _ => false,
    }
}

impl<T> LoadOutcome<T> {
    /// Extract the loaded value, if any.
    pub fn into_value(self) -> (r: Option<T>)
        ensures
            r == outcome_value(self),
    {
        match self {
            LoadOutcome::Loaded(v) => Some(v),
            LoadOutcome::Recovered(v) => Some(v),
            LoadOutcome::Default(v) => Some(v),
            LoadOutcome::DefaultAfterFailure(v) => Some(v),
            LoadOutcome::UnsupportedVersion { .. } => None,
        }
    }

    /// Transform the contained value, preserving the outcome variant.
    pub fn map<U, F: FnOnce(T) -> U>(self, f: F) -> (r: LoadOutcome<U>)
        requires
            outcome_value(self) matches Some(v) ==> f.requires((v,)),
        ensures
            same_variant(self, r),
            outcome_value(self) matches Some(v) ==> (outcome_value(r) matches Some(u) && f.ensures((v,), u)),
    {
        match self {
            LoadOutcome::Loaded(v) => LoadOutcome::Loaded(f(v)),
            LoadOutcome::Recovered(v) => LoadOutcome::Recovered(f(v)),
            LoadOutcome::Default(v) => LoadOutcome::Default(f(v)),
            LoadOutcome::DefaultAfterFailure(v) => LoadOutcome::DefaultAfterFailure(f(v)),
            LoadOutcome::UnsupportedVersion { found, max_supported } => LoadOutcome::UnsupportedVersion {
                found,
                max_supported,
            },
        }
    }
}

/// What a document's text turned out to hold.
#[derive(Debug, PartialEq, Eq)]
pub enum ParseResult<T> {
    Parsed(T),
    UnsupportedVersion { found: u32, max_supported: u32 },
    Malformed,
}

/// Classification of a document from its header (when it parsed) and its
/// data (when the whole envelope parsed): a wrong schema or an unreadable
/// header or body is malformed; a version above `max_version` is refused.
pub open spec fn parse_spec<T>(header: Option<EnvelopeHeader>, expected: Schema, max_version: u32, data: Option<T>) -> ParseResult<T> {
    match header {
        None => ParseResult::Malformed,
        Some(h) => if h.schema != expected {
            ParseResult::Malformed
        } else if h.version > max_version {
            ParseResult::UnsupportedVersion { found: h.version, max_supported: max_version }
        } else {
            match data {
                Some(d) => ParseResult::Parsed(d),
                None => ParseResult::Malformed,
            }
        },
    }
}

/// Classify a document read from disk.
pub fn classify_document<T>(header: Option<EnvelopeHeader>, expected: Schema, max_version: u32, data: Option<T>) -> (r: ParseResult<T>)
    ensures
        r == parse_spec(header, expected, max_version, data),
{
    match header {
        None => ParseResult::Malformed,
        Some(h) => match validate_header(&h, expected, max_version) {
            Err(EnvelopeError::UnsupportedVersion { found, max_supported, .. }) => ParseResult::UnsupportedVersion {
                found,
                max_supported,
            },
            Err(_) => ParseResult::Malformed,
            Ok(()) => match data {
                Some(d) => ParseResult::Parsed(d),
                None => ParseResult::Malformed,
            },
        },
    }
}

/// What reading the primary file gave.
#[derive(Debug, PartialEq, Eq)]
pub enum PrimaryRead<T> {
    /// There is no file.
    Missing,
    /// The file exists but reading it failed (permissions, an I/O error);
    /// it is left where it is.
    Unreadable,
    /// The file was read but is not text; it counts as malformed.
    NotText,
    /// The file was read and classified.
    Read(ParseResult<T>),
}

/// The next step after reading the primary file.
#[derive(Debug, PartialEq, Eq)]
pub enum PrimaryStep<T> {
    /// Loading is over.
    Done(LoadOutcome<T>),
    /// Read the backup and decide with [`outcome_from_backup`]; when
    /// `preserve_primary`, first move the malformed primary to `backups/`.
    TryBackup { preserve_primary: bool },
}

/// The step after the primary file: its data is loaded, a refusal is final,
/// a missing file gives the default, a primary that is malformed (or not
/// text) is moved to `backups/` before the backup is tried, and one that
/// could not be read at all is left in place while the backup is tried.
pub fn after_primary<T>(primary: PrimaryRead<T>, default: T) -> (r: PrimaryStep<T>)
    ensures
        match primary {
            PrimaryRead::Missing => r == PrimaryStep::Done(LoadOutcome::Default(default)),
            PrimaryRead::Unreadable => r == PrimaryStep::<T>::TryBackup { preserve_primary: false },
            PrimaryRead::NotText => r == PrimaryStep::<T>::TryBackup { preserve_primary: true },
            PrimaryRead::Read(ParseResult::Parsed(d)) => r == PrimaryStep::Done(LoadOutcome::Loaded(d)),
            PrimaryRead::Read(ParseResult::UnsupportedVersion { found, max_supported }) => r == PrimaryStep::Done(
                LoadOutcome::<T>::UnsupportedVersion { found, max_supported },
            ),
            PrimaryRead::Read(ParseResult::Malformed) => r == PrimaryStep::<T>::TryBackup { preserve_primary: true },
        },
{
    match primary {
        PrimaryRead::Missing => PrimaryStep::Done(LoadOutcome::Default(default)),
        PrimaryRead::Unreadable => PrimaryStep::TryBackup { preserve_primary: false },
        PrimaryRead::NotText => PrimaryStep::TryBackup { preserve_primary: true },
        PrimaryRead::Read(ParseResult::Parsed(d)) => PrimaryStep::Done(LoadOutcome::Loaded(d)),
        PrimaryRead::Read(ParseResult::UnsupportedVersion { found, max_supported }) => PrimaryStep::Done(
            LoadOutcome::UnsupportedVersion { found, max_supported },
        ),
        PrimaryRead::Read(ParseResult::Malformed) => PrimaryStep::TryBackup { preserve_primary: true },
    }
}

/// The outcome from the backup (`None` when it could not be read): its
/// data is recovered, anything else gives the default after failure.
pub fn outcome_from_backup<T>(backup: Option<ParseResult<T>>, default: T) -> (r: LoadOutcome<T>)
    ensures
        match backup {
            Some(ParseResult::Parsed(d)) => r == LoadOutcome::Recovered(d),
            _ => r == LoadOutcome::DefaultAfterFailure(default),
        },
{
    match backup {
        Some(ParseResult::Parsed(d)) => LoadOutcome::Recovered(d),
        _ => LoadOutcome::DefaultAfterFailure(default),
    }
}

/// The value kept by an export: only a document that was really there
/// (loaded, or recovered from its backup).
pub fn present_value<T>(outcome: LoadOutcome<T>) -> (r: Option<T>)
    ensures
        r == match outcome {
            LoadOutcome::Loaded(v) => Some(v),
            LoadOutcome::Recovered(v) => Some(v),
            _ => None,
        },
{
    match outcome {
        LoadOutcome::Loaded(v) => Some(v),
        LoadOutcome::Recovered(v) => Some(v),
        _ => None,
    }
}

} // verus!
