//! Connection and recording status types, and the names of the
//! notification channels on which their changes are published.
use vstd::prelude::*;

verus! {

/// Connectivity of the supervised control-protocol session. Written only by
/// the connection supervisor; read by anyone.
#[derive(Debug, Clone, Copy, PartialEq, Eq, Structural)]
pub enum ConnectionStatus {
    Connected,
    Disconnected,
    Retrying,
}

/// Projection of the recording lifecycle exposed to readers. `paused` is
/// meaningful only while `active`.
#[derive(Debug, Clone, Copy, PartialEq, Eq, Structural)]
pub struct RecordingStatus {
    pub active: bool,
    pub paused: bool,
}

/// Notification channels for recording-status changes.
#[derive(Debug, Clone, Copy, PartialEq, Eq, Structural)]
pub enum RecordingEvents {
    Status,
}

impl RecordingEvents {
    pub fn as_str(&self) -> (s: &str)
        ensures
            s@ == "recording:status"@,
    {
        "recording:status"
    }
}

/// Notification channels for connection-status changes.
#[derive(Debug, Clone, Copy, PartialEq, Eq, Structural)]
pub enum ConnectionEvents {
    Status,
}

impl ConnectionEvents {
    pub fn as_str(&self) -> (s: &str)
        ensures
            s@ == "connection:status"@,
    {
        "connection:status"
    }
}

} // verus!
