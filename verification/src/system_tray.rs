//! The system-tray icon choice that mirrors the connection status.
use vstd::prelude::*;

use crate::models::ConnectionStatus;

verus! {

/// The icons the tray can show.
#[derive(Debug, Clone, Copy, PartialEq, Eq, Structural)]
pub enum SystemTrayIcon {
    Default,
    Connected,
}

/// The tray icon each connection status is shown with: the connected icon
/// exactly while connected.
pub open spec fn spec_tray_icon_for(status: ConnectionStatus) -> SystemTrayIcon {
    if status is Connected {
        SystemTrayIcon::Connected
    } else {
        SystemTrayIcon::Default
    }
}

pub fn tray_icon_for(status: &ConnectionStatus) -> (icon: SystemTrayIcon)
    ensures
        icon == spec_tray_icon_for(*status),
{
    match status {
        ConnectionStatus::Connected => SystemTrayIcon::Connected,
        _ => SystemTrayIcon::Default,
    }
}

} // verus!
