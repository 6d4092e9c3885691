use clipmark::lifecycle::update_recording_status;
use clipmark::models::RecordingStatus;
use clipmark::state::RecordingState;
use clipmark::timecode::{capture_note, format_timecode, CaptureError};

fn active_state(start: i64, accum: i64, paused: bool, pause_start: Option<i64>) -> RecordingState {
    RecordingState {
        recording_status: RecordingStatus { active: true, paused },
        note_file_path: Some("/notes/file.txt".to_string()),
        recording_start: Some(start),
        accumulated_pause_duration: accum,
        pause_start,
    }
}

#[test]
fn scenario_capture_while_recording_paused_and_resumed() {
    // start at t=0
    let mut st = RecordingState::default();
    update_recording_status(&mut st, true, false, None, None, 0, Some("/c"));

    // capture "intro" at t=5000 while active and not paused
    let line = capture_note(&st, "intro", 5_000).unwrap().unwrap();
    assert_eq!(line.line, "[00:00:05.000] intro");
    assert_eq!(line.path, "/c/temp_recording_0.txt");

    // pause at t=10000; capture "break" at any later wall-clock time
    update_recording_status(&mut st, true, true, None, None, 10_000, Some("/c"));
    let line = capture_note(&st, "break", 13_000).unwrap().unwrap();
    assert_eq!(line.line, "[00:00:10.000] break");
    let line = capture_note(&st, "break", 999_999).unwrap().unwrap();
    assert_eq!(line.line, "[00:00:10.000] break");

    // resume at t=15000 (pause lasted 5000); capture "resumed" at t=20000
    update_recording_status(&mut st, true, false, None, None, 15_000, Some("/c"));
    let line = capture_note(&st, "resumed", 20_000).unwrap().unwrap();
    assert_eq!(line.line, "[00:00:15.000] resumed");
}

#[test]
fn capture_inactive_fails_without_line() {
    let st = RecordingState::default();
    let r = capture_note(&st, "nope", 5_000);
    assert_eq!(r, Err(CaptureError::NotActive));
}

#[test]
fn capture_without_start_time_fails() {
    let mut st = active_state(0, 0, false, None);
    st.recording_start = None;
    let r = capture_note(&st, "x", 5_000);
    assert_eq!(r, Err(CaptureError::StartTimeMissing));
}

#[test]
fn capture_paused_without_pause_time_fails() {
    let st = active_state(0, 0, true, None);
    let r = capture_note(&st, "x", 5_000);
    assert_eq!(r, Err(CaptureError::PauseTimeMissing));
}

#[test]
fn capture_without_note_file_writes_nothing() {
    let mut st = active_state(0, 0, false, None);
    st.note_file_path = None;
    let r = capture_note(&st, "x", 5_000);
    assert_eq!(r, Ok(None));
}

#[test]
fn capture_subtracts_accumulated_pause() {
    let st = active_state(1_000, 2_500, false, None);
    let line = capture_note(&st, "n", 10_000).unwrap().unwrap();
    // (10000 - 1000) - 2500 = 6500
    assert_eq!(line.line, "[00:00:06.500] n");
}

#[test]
fn paused_capture_uses_pause_epoch() {
    let st = active_state(0, 1_000, true, Some(8_000));
    // (8000 - 0) - 1000 = 7000, whatever the capture instant
    let line = capture_note(&st, "p", 50_000).unwrap().unwrap();
    assert_eq!(line.line, "[00:00:07.000] p");
}

#[test]
fn error_messages_are_specific() {
    assert_eq!(CaptureError::NotActive.message(), "Recording is not active");
    assert_eq!(
        CaptureError::StartTimeMissing.message(),
        "Recording start time is not set"
    );
    assert_eq!(
        CaptureError::PauseTimeMissing.message(),
        "Paused but pause time not set"
    );
    assert_eq!(
        CaptureError::LockUnavailable.message(),
        "Failed to lock recording state"
    );
    assert_eq!(
        CaptureError::FileWrite.message(),
        "Failed to write note to file"
    );
}

#[test]
fn timecode_formatting_exact() {
    assert_eq!(format_timecode(0), "00:00:00.000");
    assert_eq!(format_timecode(1), "00:00:00.001");
    assert_eq!(format_timecode(999), "00:00:00.999");
    assert_eq!(format_timecode(1_000), "00:00:01.000");
    assert_eq!(format_timecode(59_999), "00:00:59.999");
    assert_eq!(format_timecode(60_000), "00:01:00.000");
    assert_eq!(format_timecode(3_599_999), "00:59:59.999");
    assert_eq!(format_timecode(3_600_000), "01:00:00.000");
    assert_eq!(format_timecode(3_661_234), "01:01:01.234");
    // hours are unbounded and not truncated
    assert_eq!(format_timecode(360_000_000), "100:00:00.000");
}
