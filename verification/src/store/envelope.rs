//! Document envelope with schema identity and version.

use vstd::prelude::*;

use crate::text::{dec, owned, push_char, push_decimal};

verus! {

/// Version stamped into every envelope this build writes.
pub const APP_VERSION: &'static str = "0.1.0";

/// Known document schemas. Unknown values are rejected on load.
#[derive(Debug, Clone, Copy, PartialEq, Eq, Structural)]
pub enum Schema {
    Preferences,
    Hosts,
    Library,
    Workspaces,
    Ui,
    RuntimeCache,
    Migrations,
    Export,
}

/// Self-describing envelope wrapping every persisted client document.
#[derive(Debug, Clone, PartialEq, Eq)]
pub struct DocumentEnvelope<T> {
    pub schema: Schema,
    pub version: u32,
    pub app_version: String,
    pub written_at: String,
    pub data: T,
}

#[verifier::external_type_specification]
#[verifier::external_body]
pub struct ExJsonError(serde_json::Error);

/// Why an envelope was refused.
#[derive(Debug)]
pub enum EnvelopeError {
    Parse(serde_json::Error),
    SchemaMismatch { expected: Schema, found: Schema },
    UnsupportedVersion { schema: Schema, found: u32, max_supported: u32 },
}

/// Minimal envelope for peeking at schema and version without the data.
#[derive(Debug, Clone, Copy, PartialEq, Eq)]
pub struct EnvelopeHeader {
    pub schema: Schema,
    pub version: u32,
}

/// Validate that a header matches the expected schema and a supported
/// version: `SchemaMismatch` for another schema, `UnsupportedVersion` for a
/// version above `max_supported`.
pub fn validate_header(header: &EnvelopeHeader, expected: Schema, max_supported: u32) -> (r: Result<(), EnvelopeError>)
    ensures
        header.schema != expected ==> (r matches Err(EnvelopeError::SchemaMismatch { expected: e, found: f })
            && e == expected && f == header.schema),
        header.schema == expected && header.version > max_supported ==> (r matches Err(
            EnvelopeError::UnsupportedVersion { schema: s, found: f, max_supported: m },
        ) && s == expected && f == header.version && m == max_supported),
        r is Ok <==> (header.schema == expected && header.version <= max_supported),
{
    if header.schema != expected {
        return Err(EnvelopeError::SchemaMismatch { expected, found: header.schema });
    }
    if header.version > max_supported {
        return Err(EnvelopeError::UnsupportedVersion { schema: expected, found: header.version, max_supported });
    }
    Ok(())
}

/// Proleptic Gregorian `(year, month, day)` of a day count since
/// 1970-01-01 (Howard Hinnant's `civil_from_days`).
pub open spec fn civil_from_days(days: nat) -> (nat, nat, nat) {
    let z = days + 719_468;
    let era = z / 146_097;
    let doe = z % 146_097;
    let yoe = (doe - doe / 1460 + doe / 36524 - doe / 146_096) / 365;
    let y = yoe + era * 400;
    let doy = doe - (365 * yoe + yoe / 4 - yoe / 100);
    let mp = (5 * doy + 2) / 153;
    let d = doy - (153 * mp + 2) / 5 + 1;
    let m = if mp < 10 {
        mp + 3
    } else {
        mp - 9
    };
    let y = if m <= 2 {
        y + 1
    } else {
        y
    };
    (y as nat, m as nat, d as nat)
}

/// `(year, month, day)` of a day count since the Unix epoch.
pub fn days_to_ymd(days: u64) -> (r: (u64, u64, u64))
    requires
        days <= u64::MAX - 719_468,
    ensures
        (r.0 as nat, r.1 as nat, r.2 as nat) == civil_from_days(days as nat),
        1 <= r.1 <= 12,
        1 <= r.2 <= 31,
{
    let z: u64 = days + 719_468;
    let era: u64 = z / 146_097;
    let doe: u64 = z % 146_097;
    assert(doe < 146_097);
    let yoe: u64 = (doe - doe / 1460 + doe / 36524 - doe / 146_096) / 365;
    assert(yoe <= 399 && 365 * yoe + yoe / 4 - yoe / 100 <= doe);
    let y: u64 = yoe + era * 400;
    let doy: u64 = doe - (365 * yoe + yoe / 4 - yoe / 100);
    assert(doy <= 365);
    let mp: u64 = (5 * doy + 2) / 153;
    let d: u64 = doy - (153 * mp + 2) / 5 + 1;
    assert(mp <= 11 && 1 <= d <= 31);
    let m: u64 = if mp < 10 {
        mp + 3
    } else {
        mp - 9
    };
    let y: u64 = if m <= 2 {
        y + 1
    } else {
        y
    };
    (y, m, d)
}

/// `n` in decimal, left-padded with zeros to at least `width` digits.
pub open spec fn padded(n: nat, width: nat) -> Seq<char> {
    let digits = dec(n);
    if digits.len() >= width {
        digits
    } else {
        Seq::new((width - digits.len()) as nat, |i: int| '0') + digits
    }
}

fn push_padded(out: &mut String, n: u64, width: usize)
    ensures
        final(out)@ == old(out)@ + padded(n as nat, width as nat),
{
    let mut digits = String::new();
    push_decimal(&mut digits, n);
    let len = digits.unicode_len();
    assert(digits@ == dec(n as nat));
    let mut k: usize = len;
    while k < width
        invariant
            len <= k <= width || (k == len && len >= width),
            len == dec(n as nat).len(),
            out@ == old(out)@ + Seq::new((k - len) as nat, |i: int| '0'),
        decreases width - k,
    {
        push_char(out, '0');
        assert(Seq::new((k + 1 - len) as nat, |i: int| '0') =~= Seq::new((k - len) as nat, |i: int| '0').push('0'));
        k = k + 1;
    }
    out.append(digits.as_str());
    proof {
        if len >= width {
            assert(Seq::new(0nat, |i: int| '0') =~= Seq::<char>::empty());
            assert(out@ =~= old(out)@ + padded(n as nat, width as nat));
        } else {
            assert(out@ =~= old(out)@ + padded(n as nat, width as nat));
        }
    }
}

/// UTC `YYYY-MM-DDTHH:MM:SSZ` text of a time in seconds since the epoch.
pub open spec fn iso8601_spec(secs: nat) -> Seq<char> {
    let (y, m, d) = civil_from_days(secs / 86400);
    let t = secs % 86400;
    padded(y, 4) + "-"@ + padded(m, 2) + "-"@ + padded(d, 2) + "T"@ + padded(t / 3600, 2) + ":"@ + padded(
        (t % 3600) / 60,
        2,
    ) + ":"@ + padded(t % 60, 2) + "Z"@
}

/// UTC timestamp text of a time in seconds since the Unix epoch.
pub fn iso8601_from_unix_secs(secs: u64) -> (s: String)
    ensures
        s@ == iso8601_spec(secs as nat),
{
    let days = secs / 86400;
    let time_secs = secs % 86400;
    let hours = time_secs / 3600;
    let minutes = (time_secs % 3600) / 60;
    let seconds = time_secs % 60;
    let (year, month, day) = days_to_ymd(days);
    let mut s = String::new();
    push_padded(&mut s, year, 4);
    push_char(&mut s, '-');
    push_padded(&mut s, month, 2);
    push_char(&mut s, '-');
    push_padded(&mut s, day, 2);
    push_char(&mut s, 'T');
    push_padded(&mut s, hours, 2);
    push_char(&mut s, ':');
    push_padded(&mut s, minutes, 2);
    push_char(&mut s, ':');
    push_padded(&mut s, seconds, 2);
    push_char(&mut s, 'Z');
    proof {
        reveal_strlit("-");
        reveal_strlit("T");
        reveal_strlit(":");
        reveal_strlit("Z");
        assert(s@ =~= iso8601_spec(secs as nat));
    }
    s
}

/// Seconds since the Unix epoch now.
///
/// Reads `std::time::SystemTime::now()` and its distance from
/// `UNIX_EPOCH` (0 for a clock set before the epoch). Nothing is claimed of
/// the value: it is the machine's clock.
#[verifier::external_body]
pub(crate) fn now_unix_secs() -> (s: u64) {
    match std::time::SystemTime::now().duration_since(std::time::UNIX_EPOCH) {
        Ok(d) => d.as_secs(),
        Err(_) => 0,
    }
}

impl<T> DocumentEnvelope<T> {
    /// An envelope stamped with this build's version and the time `secs`.
    pub fn new_at(schema: Schema, version: u32, data: T, secs: u64) -> (e: Self)
        ensures
            e.schema == schema,
            e.version == version,
            e.app_version@ == APP_VERSION@,
            e.written_at@ == iso8601_spec(secs as nat),
            e.data == data,
    {
        DocumentEnvelope { schema, version, app_version: owned(APP_VERSION), written_at: iso8601_from_unix_secs(secs), data }
    }

    /// An envelope stamped with this build's version and the current time.
    pub fn new(schema: Schema, version: u32, data: T) -> (e: Self)
        ensures
            e.schema == schema,
            e.version == version,
            e.app_version@ == APP_VERSION@,
            exists|secs: nat| secs <= u64::MAX && e.written_at@ == iso8601_spec(secs),
            e.data == data,
    {
        let secs = now_unix_secs();
        Self::new_at(schema, version, data, secs)
    }
}

/// UTC `YYYY-MM-DD` text of the day holding a time in seconds since the
/// epoch.
pub open spec fn date_spec(secs: nat) -> Seq<char> {
    let (y, m, d) = civil_from_days(secs / 86400);
    padded(y, 4) + "-"@ + padded(m, 2) + "-"@ + padded(d, 2)
}

/// UTC date text of a time in seconds since the Unix epoch.
pub fn date_string_from_unix_secs(secs: u64) -> (s: String)
    ensures
        s@ == date_spec(secs as nat),
{
    let (year, month, day) = days_to_ymd(secs / 86400);
    let mut s = String::new();
    push_padded(&mut s, year, 4);
    push_char(&mut s, '-');
    push_padded(&mut s, month, 2);
    push_char(&mut s, '-');
    push_padded(&mut s, day, 2);
    proof {
        reveal_strlit("-");
        assert(s@ =~= date_spec(secs as nat));
    }
    s
}

/// Today's UTC date as `YYYY-MM-DD`.
pub fn today_date_string() -> (s: String)
    ensures
        exists|secs: nat| secs <= u64::MAX && s@ == date_spec(secs),
{
    let secs = now_unix_secs();
    date_string_from_unix_secs(secs)
}

} // verus!
