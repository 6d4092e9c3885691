use clipmark::notefile::{resolve_note_file_path, with_txt_extension};
use clipmark::numfmt::dec_string;
use clipmark::state::{AppSettingsState, ObsServerDataResponse, ServerConfigState};

#[test]
fn extension_is_replaced() {
    assert_eq!(with_txt_extension("/videos/show.mkv"), "/videos/show.txt");
    assert_eq!(with_txt_extension("C:\\Videos\\rec.mkv"), "C:\\Videos\\rec.txt");
    assert_eq!(with_txt_extension("archive.tar.gz"), "archive.tar.txt");
}

#[test]
fn extension_is_appended_when_missing() {
    assert_eq!(with_txt_extension("noext"), "noext.txt");
    assert_eq!(with_txt_extension("/a/b/noext"), "/a/b/noext.txt");
    // a dot in a directory name is not an extension of the file
    assert_eq!(with_txt_extension("dir.v1/file"), "dir.v1/file.txt");
}

#[test]
fn leading_dot_is_not_an_extension() {
    assert_eq!(with_txt_extension(".hidden"), ".hidden.txt");
    assert_eq!(with_txt_extension("/home/u/.hidden"), "/home/u/.hidden.txt");
    // but a later dot is
    assert_eq!(with_txt_extension(".hidden.bak"), ".hidden.txt");
}

#[test]
fn trailing_dot_is_cut() {
    assert_eq!(with_txt_extension("a."), "a.txt");
}

#[test]
fn resolved_path_prefers_server_output() {
    assert_eq!(
        resolve_note_file_path(Some("/v/out.mkv".to_string()), Some("/cache"), 7),
        "/v/out.txt"
    );
}

#[test]
fn resolved_path_falls_back_to_cache_dir() {
    assert_eq!(
        resolve_note_file_path(None, Some("/cache"), 123),
        "/cache/temp_recording_123.txt"
    );
}

#[test]
fn resolved_path_bare_without_cache_dir() {
    assert_eq!(resolve_note_file_path(None, None, 456), "temp_recording_456.txt");
}

#[test]
fn decimal_rendering() {
    assert_eq!(dec_string(0), "0");
    assert_eq!(dec_string(9), "9");
    assert_eq!(dec_string(10), "10");
    assert_eq!(dec_string(1_234_567_890), "1234567890");
}

#[test]
fn server_config_defaults() {
    let c = ServerConfigState::from_values(None, None, None);
    assert_eq!(c.address, "localhost");
    assert_eq!(c.port, 4455);
    assert_eq!(c.password, "");
}

#[test]
fn server_config_explicit_values() {
    let c = ServerConfigState::from_values(
        Some("obs.local".to_string()),
        Some(4466),
        Some("secret".to_string()),
    );
    assert_eq!(c.address, "obs.local");
    assert_eq!(c.port, 4466);
    assert_eq!(c.password, "secret");
}

#[test]
fn server_config_port_is_truncated() {
    let c = ServerConfigState::from_values(None, Some(70_000), None);
    assert_eq!(c.port, (70_000 % 65_536) as u16);
}

#[test]
fn server_config_response_copies_fields() {
    let c = ServerConfigState::from_values(None, None, None);
    let r = ObsServerDataResponse::from_config(&c);
    assert_eq!(r.address, "localhost");
    assert_eq!(r.port, 4455);
    assert_eq!(r.password, "");
}

#[test]
fn app_settings_defaults_and_values() {
    let s = AppSettingsState::from_values(None, None);
    assert!(!s.start_at_login);
    assert!(!s.hide_from_capture);
    let s = AppSettingsState::from_values(Some(true), Some(false));
    assert!(s.start_at_login);
    assert!(!s.hide_from_capture);
}
