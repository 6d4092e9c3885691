//! The connection supervisor's decisions: what each outcome of the
//! reconnect loop does to the connection status, and what the loop does
//! next. The caller owns the long-lived loop (connecting, awaiting events,
//! racing the config-change signal) and feeds every outcome through
//! `supervisor_step`.
use vstd::prelude::*;

use crate::models::ConnectionStatus;
use crate::models::RecordingStatus;
use crate::system_tray::SystemTrayIcon;
use crate::system_tray::spec_tray_icon_for;
use crate::system_tray::tray_icon_for;

verus! {

/// An outcome of the supervisor loop's body.
#[derive(Debug, Clone, Copy, PartialEq, Eq, Structural)]
pub enum SupervisorEvent {
    /// The configuration snapshot could not be read; transient.
    ConfigUnavailable,
    /// A connect attempt failed (the attempt's timeout throttles retries).
    ConnectFailed,
    /// A session was established.
    Connected,
    /// The session's event stream could not be subscribed to.
    StreamUnavailable,
    /// An event handler reported failure (the server stopped); the session
    /// is dropped.
    EventStreamError,
    /// The configuration changed while awaiting events; the session is
    /// dropped and the new configuration is used at once.
    ConfigChanged,
}

/// What the supervisor loop does after a step.
#[derive(Debug, Clone, Copy, PartialEq, Eq, Structural)]
pub enum SupervisorAction {
    /// Loop again without delay.
    RetryImmediately,
    /// Consume the session's events.
    RunSession,
    /// Reconnect after the bounded retry delay, or as soon as the
    /// configuration changes again, whichever comes first.
    ReconnectAfterDelay,
}

/// The status transition one outcome causes, if any, and what to do next.
/// A failed connect is published only when the status is not already
/// `Disconnected`, so sustained outages cause no redundant notifications.
pub open spec fn spec_supervisor_step(current: ConnectionStatus, event: SupervisorEvent) -> (
    Option<ConnectionStatus>,
    SupervisorAction,
) {
    match event {
        SupervisorEvent::ConfigUnavailable => (None, SupervisorAction::RetryImmediately),
        SupervisorEvent::ConnectFailed => (
            if current is Disconnected {
                None
            } else {
                Some(ConnectionStatus::Disconnected)
            },
            SupervisorAction::RetryImmediately,
        ),
        SupervisorEvent::Connected => (
            Some(ConnectionStatus::Connected),
            SupervisorAction::RunSession,
        ),
        SupervisorEvent::StreamUnavailable => (None, SupervisorAction::ReconnectAfterDelay),
        SupervisorEvent::EventStreamError => (
            Some(ConnectionStatus::Disconnected),
            SupervisorAction::ReconnectAfterDelay,
        ),
        SupervisorEvent::ConfigChanged => (
            Some(ConnectionStatus::Retrying),
            SupervisorAction::ReconnectAfterDelay,
        ),
    }
}

pub fn supervisor_step(current: &ConnectionStatus, event: &SupervisorEvent) -> (r: (
    Option<ConnectionStatus>,
    SupervisorAction,
))
    ensures
        r == spec_supervisor_step(*current, *event),
{
    match event {
        SupervisorEvent::ConfigUnavailable => (None, SupervisorAction::RetryImmediately),
        SupervisorEvent::ConnectFailed => {
            if should_signal_disconnect(current) {
                (Some(ConnectionStatus::Disconnected), SupervisorAction::RetryImmediately)
            } else {
                (None, SupervisorAction::RetryImmediately)
            }
        },
        SupervisorEvent::Connected => (
            Some(ConnectionStatus::Connected),
            SupervisorAction::RunSession,
        ),
        SupervisorEvent::StreamUnavailable => (None, SupervisorAction::ReconnectAfterDelay),
        SupervisorEvent::EventStreamError => (
            Some(ConnectionStatus::Disconnected),
            SupervisorAction::ReconnectAfterDelay,
        ),
        SupervisorEvent::ConfigChanged => (
            Some(ConnectionStatus::Retrying),
            SupervisorAction::ReconnectAfterDelay,
        ),
    }
}

/// Whether a failed connect is worth announcing: only when the status is
/// not already `Disconnected`.
pub fn should_signal_disconnect(current: &ConnectionStatus) -> (r: bool)
    ensures
        r == !(*current is Disconnected),
{
    match current {
        ConnectionStatus::Disconnected => false,
        _ => true,
    }
}

/// What accompanies every published status transition: the recording-status
/// surface is cleared, and the tray icon mirrors the new status. The
/// caller performs both synchronously with the status mutation, in this
/// order.
#[derive(Debug, Clone, Copy, PartialEq, Eq, Structural)]
pub struct ConnectionEffects {
    pub clear_recording_status: RecordingStatus,
    pub tray_icon: SystemTrayIcon,
}

pub fn connection_changed_effects(status: &ConnectionStatus) -> (fx: ConnectionEffects)
    ensures
        fx.clear_recording_status == (RecordingStatus { active: false, paused: false }),
        fx.tray_icon == spec_tray_icon_for(*status),
{
    ConnectionEffects {
        clear_recording_status: RecordingStatus { active: false, paused: false },
        tray_icon: tray_icon_for(status),
    }
}

} // verus!
