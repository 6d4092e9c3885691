use clipmark::constants::{Store, WindowEvent, WindowLabel};
use clipmark::models::{ConnectionEvents, ConnectionStatus, RecordingEvents};
use clipmark::positioner::{
    calculate_tray_position, clamp_window_to_monitor, TrayPosition, WindowPoint, WindowSize,
};
use clipmark::shortcuts::AppShortcut;
use clipmark::supervisor::{
    connection_changed_effects, should_signal_disconnect, supervisor_step, SupervisorAction,
    SupervisorEvent,
};
use clipmark::system_tray::{tray_icon_for, SystemTrayIcon};

#[test]
fn config_change_while_streaming_goes_retrying() {
    // the reconnect scenario: a config change interrupting the event wait
    // moves the status to Retrying and reconnects within the bounded delay
    let (status, action) =
        supervisor_step(&ConnectionStatus::Connected, &SupervisorEvent::ConfigChanged);
    assert_eq!(status, Some(ConnectionStatus::Retrying));
    assert_eq!(action, SupervisorAction::ReconnectAfterDelay);
}

#[test]
fn connect_failure_signals_disconnect_once() {
    let (status, action) =
        supervisor_step(&ConnectionStatus::Connected, &SupervisorEvent::ConnectFailed);
    assert_eq!(status, Some(ConnectionStatus::Disconnected));
    assert_eq!(action, SupervisorAction::RetryImmediately);
    // a sustained outage causes no redundant notification
    let (status, _) =
        supervisor_step(&ConnectionStatus::Disconnected, &SupervisorEvent::ConnectFailed);
    assert_eq!(status, None);
}

#[test]
fn remaining_supervisor_steps() {
    let (status, action) =
        supervisor_step(&ConnectionStatus::Disconnected, &SupervisorEvent::Connected);
    assert_eq!(status, Some(ConnectionStatus::Connected));
    assert_eq!(action, SupervisorAction::RunSession);

    let (status, action) =
        supervisor_step(&ConnectionStatus::Connected, &SupervisorEvent::EventStreamError);
    assert_eq!(status, Some(ConnectionStatus::Disconnected));
    assert_eq!(action, SupervisorAction::ReconnectAfterDelay);

    let (status, action) =
        supervisor_step(&ConnectionStatus::Retrying, &SupervisorEvent::ConfigUnavailable);
    assert_eq!(status, None);
    assert_eq!(action, SupervisorAction::RetryImmediately);

    let (status, action) =
        supervisor_step(&ConnectionStatus::Connected, &SupervisorEvent::StreamUnavailable);
    assert_eq!(status, None);
    assert_eq!(action, SupervisorAction::ReconnectAfterDelay);
}

#[test]
fn disconnect_signalling_predicate() {
    assert!(!should_signal_disconnect(&ConnectionStatus::Disconnected));
    assert!(should_signal_disconnect(&ConnectionStatus::Connected));
    assert!(should_signal_disconnect(&ConnectionStatus::Retrying));
}

#[test]
fn tray_icon_mirrors_connection() {
    assert_eq!(tray_icon_for(&ConnectionStatus::Connected), SystemTrayIcon::Connected);
    assert_eq!(tray_icon_for(&ConnectionStatus::Disconnected), SystemTrayIcon::Default);
    assert_eq!(tray_icon_for(&ConnectionStatus::Retrying), SystemTrayIcon::Default);
}

#[test]
fn connection_transition_effects() {
    let fx = connection_changed_effects(&ConnectionStatus::Retrying);
    assert!(!fx.clear_recording_status.active);
    assert!(!fx.clear_recording_status.paused);
    assert_eq!(fx.tray_icon, SystemTrayIcon::Default);
}

#[test]
fn event_and_store_names() {
    assert_eq!(RecordingEvents::Status.as_str(), "recording:status");
    assert_eq!(ConnectionEvents::Status.as_str(), "connection:status");
    assert_eq!(Store::AppSettings.as_str(), "app-settings.json");
    assert_eq!(Store::ObsServerConfig.as_str(), "obs-server-config.json");
    assert_eq!(WindowEvent::CaptureNoteWillShow.as_str(), "window:capture_note_will_show");
    assert_eq!(WindowLabel::RecordingStatus.as_str(), "recording-status");
}

#[test]
fn capturable_windows_list() {
    let v = WindowLabel::capturable_windows();
    assert_eq!(
        v,
        vec![
            WindowLabel::Configuration,
            WindowLabel::RecordingStatus,
            WindowLabel::CaptureNote,
        ]
    );
}

#[test]
fn shortcut_details() {
    let all = AppShortcut::all_shortcuts();
    assert_eq!(all.len(), 2);
    assert_eq!(all[0].title, "Capture Note");
    assert_eq!(all[0].description.as_deref(), Some("When recording in progress."));
    assert_eq!(all[0].shortcut, vec!["Ctrl".to_string(), "Alt".to_string(), "=".to_string()]);
    assert_eq!(all[1].title, "Open Configuration");
    assert_eq!(all[1].description, None);
    assert_eq!(all[1].shortcut, vec!["Ctrl".to_string(), "Alt".to_string(), "-".to_string()]);
}

#[test]
fn tray_position_variants() {
    let win = WindowSize { width: 100, height: 50 };
    // tray at (1000, 900), 40x30
    let p = calculate_tray_position(1000, 900, 40, 30, win, TrayPosition::TrayCenter, false);
    assert_eq!(p, WindowPoint { x: 1000 + 20 - 50, y: 900 - 50 });
    let p = calculate_tray_position(1000, 900, 40, 30, win, TrayPosition::TrayLeft, false);
    assert_eq!(p, WindowPoint { x: 1000, y: 850 });
    let p = calculate_tray_position(1000, 900, 40, 30, win, TrayPosition::TrayRight, false);
    assert_eq!(p, WindowPoint { x: 940, y: 850 });
    let p = calculate_tray_position(1000, 900, 40, 30, win, TrayPosition::TrayBottomLeft, false);
    assert_eq!(p, WindowPoint { x: 1000, y: 900 });
    let p = calculate_tray_position(1000, 900, 40, 30, win, TrayPosition::TrayBottomRight, false);
    assert_eq!(p, WindowPoint { x: 940, y: 900 });
    let p = calculate_tray_position(1000, 900, 40, 30, win, TrayPosition::TrayBottomCenter, false);
    assert_eq!(p, WindowPoint { x: 970, y: 900 });
}

#[test]
fn tray_position_screen_top_fallback() {
    let win = WindowSize { width: 100, height: 50 };
    // tray at the screen top: the window would leave the screen above
    let p = calculate_tray_position(10, 20, 40, 30, win, TrayPosition::TrayCenter, false);
    assert_eq!(p.y, 20);
    let p = calculate_tray_position(10, 20, 40, 30, win, TrayPosition::TrayCenter, true);
    assert_eq!(p.y, 50);
    // bottom placements never fall back
    let p = calculate_tray_position(10, 20, 40, 30, win, TrayPosition::TrayBottomLeft, true);
    assert_eq!(p.y, 20);
}

#[test]
fn window_clamped_to_monitor() {
    let size = WindowSize { width: 100, height: 50 };
    let p = clamp_window_to_monitor(WindowPoint { x: -10, y: 5 }, size, 0, 0, 1920, 1080);
    assert_eq!(p, WindowPoint { x: 0, y: 5 });
    let p = clamp_window_to_monitor(WindowPoint { x: 1900, y: 1070 }, size, 0, 0, 1920, 1080);
    assert_eq!(p, WindowPoint { x: 1820, y: 1030 });
    let p = clamp_window_to_monitor(WindowPoint { x: 400, y: 400 }, size, 0, 0, 1920, 1080);
    assert_eq!(p, WindowPoint { x: 400, y: 400 });
}
