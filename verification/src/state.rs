//! Shared state: the server configuration snapshot, the application
//! settings, and the recording lifecycle state with its invariant.
use vstd::prelude::*;
use vstd::string::StringExecFns;

use crate::models::RecordingStatus;

verus! {

/// Upper bound, in epoch milliseconds, on every timestamp the lifecycle
/// engine accepts. Generous (about year 5138); it only serves to rule
/// arithmetic overflow out.
pub const MAX_EPOCH_MS: i64 = 100_000_000_000_000;

/// When the engine attaches to a recording already in progress, the start is
/// back-dated by the server-reported duration plus this correction for the
/// server's coarse duration granularity. A calibration constant, not a
/// structural invariant.
pub const ATTACH_BACKDATE_MS: i64 = 1100;

/// Connection settings for the recording server. An immutable snapshot,
/// replaced wholesale on update.
#[derive(Debug, Clone)]
pub struct ServerConfigState {
    pub address: String,
    pub port: u16,
    pub password: String,
}

impl ServerConfigState {
    /// Builds a snapshot from the optional values a durable store holds,
    /// filling each missing field with its default.
    pub fn from_values(address: Option<String>, port: Option<u64>, password: Option<String>) -> (r:
        Self)
        ensures
            match address {
                Some(a) => r.address@ == a@,
                None => r.address@ == "localhost"@,
            },
            match port {
                Some(n) => r.port as int == (n as int) % 0x10000,
                None => r.port == 4455u16,
            },
            match password {
                Some(p) => r.password@ == p@,
                None => r.password@.len() == 0,
            },
    {
        ServerConfigState {
            address: match address {
                Some(a) => a,
                None => String::from_str("localhost"),
            },
            port: match port {
                Some(n) => (n % 0x10000) as u16,
                None => 4455,
            },
            password: match password {
                Some(p) => p,
                None => String::new(),
            },
        }
    }
}

impl Default for ServerConfigState {
    fn default() -> (r: Self)
        ensures
            r.address@.len() == 0,
            r.port == 0u16,
            r.password@.len() == 0,
    {
        ServerConfigState { address: String::new(), port: 0, password: String::new() }
    }
}

/// Per-user application settings.
#[derive(Debug, Clone, Copy, PartialEq, Eq, Structural)]
pub struct AppSettingsState {
    pub start_at_login: bool,
    pub hide_from_capture: bool,
}

impl AppSettingsState {
    /// Builds the settings from the optional values a durable store holds;
    /// a missing field defaults to `false`.
    pub fn from_values(start_at_login: Option<bool>, hide_from_capture: Option<bool>) -> (r: Self)
        ensures
            r.start_at_login == (start_at_login matches Some(true)),
            r.hide_from_capture == (hide_from_capture matches Some(true)),
    {
        AppSettingsState {
            start_at_login: match start_at_login {
                Some(b) => b,
                None => false,
            },
            hide_from_capture: match hide_from_capture {
                Some(b) => b,
                None => false,
            },
        }
    }
}

impl Default for AppSettingsState {
    fn default() -> (r: Self)
        ensures
            !r.start_at_login,
            !r.hide_from_capture,
    {
        AppSettingsState { start_at_login: false, hide_from_capture: false }
    }
}

/// The application settings as reported to a caller.
#[derive(Debug, Clone, Copy, PartialEq, Eq, Structural)]
pub struct AppSettingsResponse {
    pub start_at_login: bool,
    pub hide_from_capture: bool,
}

impl AppSettingsResponse {
    pub fn from_state(state: &AppSettingsState) -> (r: Self)
        ensures
            r.start_at_login == state.start_at_login,
            r.hide_from_capture == state.hide_from_capture,
    {
        AppSettingsResponse {
            start_at_login: state.start_at_login,
            hide_from_capture: state.hide_from_capture,
        }
    }
}

/// The server configuration as reported to a caller.
#[derive(Debug, Clone)]
pub struct ObsServerDataResponse {
    pub address: String,
    pub port: u16,
    pub password: String,
}

impl ObsServerDataResponse {
    pub fn from_config(config: &ServerConfigState) -> (r: Self)
        ensures
            r.address@ == config.address@,
            r.port == config.port,
            r.password@ == config.password@,
    {
        ObsServerDataResponse {
            address: config.address.clone(),
            port: config.port,
            password: config.password.clone(),
        }
    }
}

/// The recording lifecycle state. Mutated exclusively by the lifecycle
/// engine in response to server events; read by the note timecode
/// calculator and by status queries.
#[derive(Debug, Clone)]
pub struct RecordingState {
    pub recording_status: RecordingStatus,
    pub note_file_path: Option<String>,
    pub recording_start: Option<i64>,
    pub accumulated_pause_duration: i64,
    pub pause_start: Option<i64>,
}

/// Mathematical image of a `RecordingState`: strings as character
/// sequences, timestamps as unbounded integers.
pub ghost struct RecModel {
    pub active: bool,
    pub paused: bool,
    pub note: Option<Seq<char>>,
    pub start: Option<int>,
    pub accum: int,
    pub pause: Option<int>,
}

/// The invariant the lifecycle engine maintains:
/// - the start epoch and the note-file path are present exactly while a
///   recording is active;
/// - a pause epoch is present only while active and paused;
/// - the accumulated pause duration is never negative, and is zero while
///   no recording is active;
/// - timestamps stay inside the engine's working range, and the recorded
///   time net of pauses was never negative when last observed (at the pause
///   epoch while paused, at some instant no later than `MAX_EPOCH_MS`
///   otherwise).
pub open spec fn wf_model(m: RecModel) -> bool {
    &&& m.active <==> m.start is Some
    &&& m.active <==> m.note is Some
    &&& m.pause is Some ==> m.active && m.paused
    &&& 0 <= m.accum
    &&& !m.active ==> m.accum == 0
    &&& m.start matches Some(r) ==> -((MAX_EPOCH_MS + ATTACH_BACKDATE_MS) as int) <= r && r
        + m.accum <= MAX_EPOCH_MS as int
    &&& m.pause matches Some(p) ==> 0 <= p <= MAX_EPOCH_MS as int && (m.start matches Some(r) && r
        + m.accum <= p)
}

/// The state a process starts in: nothing active, nothing recorded.
pub open spec fn empty_model() -> RecModel {
    RecModel { active: false, paused: false, note: None, start: None, accum: 0, pause: None }
}

impl RecordingState {
    pub open spec fn model(&self) -> RecModel {
        RecModel {
            active: self.recording_status.active,
            paused: self.recording_status.paused,
            note: match self.note_file_path {
                Some(s) => Some(s@),
                None => None,
            },
            start: match self.recording_start {
                Some(t) => Some(t as int),
                None => None,
            },
            accum: self.accumulated_pause_duration as int,
            pause: match self.pause_start {
                Some(t) => Some(t as int),
                None => None,
            },
        }
    }

    pub open spec fn wf(&self) -> bool {
        wf_model(self.model())
    }
}

impl Default for RecordingState {
    fn default() -> (r: Self)
        ensures
            r.model() == empty_model(),
            r.wf(),
    {
        RecordingState {
            recording_status: RecordingStatus { active: false, paused: false },
            note_file_path: None,
            recording_start: None,
            accumulated_pause_duration: 0,
            pause_start: None,
        }
    }
}

} // verus!
