//! The records that the note store keeps, and the conversions between them
//! and the rows of the database.
use std::time::{SystemTime, SystemTimeError, UNIX_EPOCH};
use vstd::prelude::*;
use vstd::std_specs::cmp::PartialEqSpecImpl;

verus! {

/// A note: its row id and its plain-text body.
pub struct Note {
    pub id: i64,
    pub body: String,
}

/// A note as a mathematical value.
pub struct NoteView {
    pub id: i64,
    pub body: Seq<char>,
}

impl View for Note {
    type V = NoteView;

    open spec fn view(&self) -> NoteView {
        NoteView { id: self.id, body: self.body@ }
    }
}

impl Clone for Note {
    fn clone(&self) -> (r: Self)
        ensures
            r@ == self@,
    {
        Note { id: self.id, body: self.body.clone() }
    }
}

/// The user's settings for semantic search.
pub struct Settings {
    pub semantic_enabled: bool,
    pub laya_endpoint: String,
}

/// The settings as a mathematical value.
pub struct SettingsView {
    pub semantic_enabled: bool,
    pub laya_endpoint: Seq<char>,
}

impl View for Settings {
    type V = SettingsView;

    open spec fn view(&self) -> SettingsView {
        SettingsView { semantic_enabled: self.semantic_enabled, laya_endpoint: self.laya_endpoint@ }
    }
}

impl Clone for Settings {
    fn clone(&self) -> (r: Self)
        ensures
            r@ == self@,
    {
        Settings { semantic_enabled: self.semantic_enabled, laya_endpoint: self.laya_endpoint.clone() }
    }
}

impl PartialEq for Settings {
    fn eq(&self, other: &Self) -> (r: bool) {
        self.semantic_enabled == other.semantic_enabled && self.laya_endpoint == other.laya_endpoint
    }
}

impl PartialEqSpecImpl for Settings {
    open spec fn obeys_eq_spec() -> bool {
        true
    }

    open spec fn eq_spec(&self, other: &Self) -> bool {
        self.semantic_enabled == other.semantic_enabled && self.laya_endpoint@
            == other.laya_endpoint@
    }
}

impl Eq for Settings {

}

/// The integer that the settings row stores for the semantic-search switch.
pub open spec fn enabled_column(enabled: bool) -> i64 {
    if enabled {
        1
    } else {
        0
    }
}

/// The values that the settings row stores: the switch as 0 or 1, and the
/// endpoint text.
pub fn settings_row(settings: &Settings) -> (row: (i64, String))
    ensures
        row.0 == enabled_column(settings.semantic_enabled),
        row.1@ == settings.laya_endpoint@,
{
    let enabled: i64 = if settings.semantic_enabled {
        1
    } else {
        0
    };
    (enabled, settings.laya_endpoint.clone())
}

/// The settings that a stored row holds: any non-zero switch value means
/// that semantic search is on.
pub fn settings_from_row(enabled: i64, endpoint: String) -> (settings: Settings)
    ensures
        settings.semantic_enabled == (enabled != 0),
        settings.laya_endpoint@ == endpoint@,
{
    Settings { semantic_enabled: enabled != 0, laya_endpoint: endpoint }
}

/// Settings read back from the row that they were written to are the same
/// settings.
pub proof fn settings_row_round_trip(settings: SettingsView)
    ensures
        (SettingsView {
            semantic_enabled: enabled_column(settings.semantic_enabled) != 0,
            laya_endpoint: settings.laya_endpoint,
        }) == settings,
{
}

// ---------------------------------------------------------------------------
// Timestamps
// ---------------------------------------------------------------------------

#[verifier::external_type_specification]
#[verifier::external_body]
pub struct ExSystemTime(SystemTime);

#[verifier::external_type_specification]
#[verifier::external_body]
pub struct ExSystemTimeError(SystemTimeError);

/// `SystemTime::now`: the current time of the system clock. Nothing is
/// stated of it.
#[verifier::external_body]
fn clock_now() -> SystemTime {
    SystemTime::now()
}

/// `SystemTime::duration_since(UNIX_EPOCH)`: the time elapsed since the Unix
/// epoch, or an error when the clock stands before it. Nothing is stated of
/// the outcome, which depends on the clock.
#[verifier::external_body]
fn since_unix_epoch(t: &SystemTime) -> Result<std::time::Duration, SystemTimeError> {
    t.duration_since(UNIX_EPOCH)
}

/// `Duration::as_millis`: the whole milliseconds in `d`. `Duration` is opaque
/// here, so nothing is stated of the value.
#[verifier::external_body]
fn whole_millis(d: &std::time::Duration) -> u128 {
    d.as_millis()
}

/// The timestamp that a note row stores for `elapsed` milliseconds since the
/// Unix epoch (0 when the clock stood before it): the low 64 bits of the
/// count, read as a signed integer.
pub fn millis_timestamp(elapsed: Option<u128>) -> (t: i64)
    ensures
        t == match elapsed {
            Some(m) => m as i64,
            None => 0i64,
        },
{
    match elapsed {
        Some(m) => m as i64,
        None => 0,
    }
}

/// The current time as the note rows store it: milliseconds since the Unix
/// epoch, or 0 when the clock stands before the epoch.
/// The value depends on the clock alone: it is `millis_timestamp` of what
/// the clock reports, and nothing more is stated of it.
pub fn now_millis() -> (t: i64) {
    let now = clock_now();
    let elapsed = match since_unix_epoch(&now) {
        Ok(d) => Some(whole_millis(&d)),
        Err(_) => None,
    };
    millis_timestamp(elapsed)
}

} // verus!
