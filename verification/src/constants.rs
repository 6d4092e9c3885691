//! Window, event and store identifiers shared with the presentation layer.
use vstd::prelude::*;

verus! {

/// Events the windows are told about before they are shown or hidden.
#[derive(Debug, Clone, Copy, PartialEq, Eq, Structural)]
pub enum WindowEvent {
    ConfigurationWillHide,
    ConfigurationWillShow,
    CaptureNoteWillShow,
}

impl WindowEvent {
    pub fn as_str(&self) -> (s: &str)
        ensures
            *self is ConfigurationWillHide ==> s@ == "window:configuration_will_hide"@,
            *self is ConfigurationWillShow ==> s@ == "window:configuration_will_show"@,
            *self is CaptureNoteWillShow ==> s@ == "window:capture_note_will_show"@,
    {
        match self {
            WindowEvent::ConfigurationWillHide => "window:configuration_will_hide",
            WindowEvent::ConfigurationWillShow => "window:configuration_will_show",
            WindowEvent::CaptureNoteWillShow => "window:capture_note_will_show",
        }
    }
}

/// Labels of the application's windows.
#[derive(Debug, Clone, Copy, PartialEq, Eq, Structural)]
pub enum WindowLabel {
    Configuration,
    RecordingStatus,
    CaptureNote,
    SystemTrayMenu,
}

impl WindowLabel {
    pub fn as_str(&self) -> (s: &str)
        ensures
            *self is Configuration ==> s@ == "configuration"@,
            *self is RecordingStatus ==> s@ == "recording-status"@,
            *self is CaptureNote ==> s@ == "capture-note"@,
            *self is SystemTrayMenu ==> s@ == "system-tray-menu"@,
    {
        match self {
            WindowLabel::Configuration => "configuration",
            WindowLabel::RecordingStatus => "recording-status",
            WindowLabel::CaptureNote => "capture-note",
            WindowLabel::SystemTrayMenu => "system-tray-menu",
        }
    }

    /// The windows whose content can be hidden from screen capture.
    pub fn capturable_windows() -> (v: Vec<WindowLabel>)
        ensures
            v@ =~= seq![
                WindowLabel::Configuration,
                WindowLabel::RecordingStatus,
                WindowLabel::CaptureNote,
            ],
    {
        let mut v: Vec<WindowLabel> = Vec::new();
        v.push(WindowLabel::Configuration);
        v.push(WindowLabel::RecordingStatus);
        v.push(WindowLabel::CaptureNote);
        v
    }
}

/// Names of the durable key-value stores.
#[derive(Debug, Clone, Copy, PartialEq, Eq, Structural)]
pub enum Store {
    AppSettings,
    ObsServerConfig,
}

impl Store {
    pub fn as_str(&self) -> (s: &str)
        ensures
            *self is AppSettings ==> s@ == "app-settings.json"@,
            *self is ObsServerConfig ==> s@ == "obs-server-config.json"@,
    {
        match self {
            Store::AppSettings => "app-settings.json",
            Store::ObsServerConfig => "obs-server-config.json",
        }
    }
}

} // verus!
