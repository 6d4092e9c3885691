//! The recording lifecycle engine: translates server-pushed recording
//! events into `RecordingState` changes, keeps the pause accounting, and
//! decides the note-file side effects (creation at start, rename at stop)
//! that the caller performs outside the state lock.
use vstd::prelude::*;
use vstd::string::StringExecFns;

use crate::models::RecordingStatus;
use crate::notefile::resolve_note_file_path;
use crate::notefile::spec_resolve_note_path;
use crate::notefile::spec_with_txt_ext;
use crate::notefile::with_txt_extension;
use crate::state::ATTACH_BACKDATE_MS;
use crate::state::MAX_EPOCH_MS;
use crate::state::RecModel;
use crate::state::RecordingState;
use crate::state::wf_model;

verus! {

/// Recording output states reported by the server. Anything the engine does
/// not recognise arrives as `Other` and is treated as inactive.
#[derive(Debug, Clone, Copy, PartialEq, Eq, Structural)]
pub enum OutputState {
    Started,
    Paused,
    Resumed,
    Stopping,
    Stopped,
    Other,
}

/// The `(active, paused)` flags each server output state maps to.
/// `Stopping` still counts as active: the recording is active until fully
/// stopped. Unrecognised states count as stopped.
pub open spec fn spec_map_output_state(s: OutputState) -> (bool, bool) {
    match s {
        OutputState::Started => (true, false),
        OutputState::Paused => (true, true),
        OutputState::Resumed => (true, false),
        OutputState::Stopping => (true, false),
        OutputState::Stopped => (false, false),
        OutputState::Other => (false, false),
    }
}

pub fn map_output_state(state: &OutputState) -> (r: (bool, bool))
    ensures
        r == spec_map_output_state(*state),
{
    match state {
        OutputState::Started => (true, false),
        OutputState::Paused => (true, true),
        OutputState::Resumed => (true, false),
        OutputState::Stopping => (true, false),
        OutputState::Stopped => (false, false),
        OutputState::Other => (false, false),
    }
}

/// An event delivered by the server's event stream, reduced to what the
/// engine reacts to.
#[derive(Debug, Clone)]
pub enum ServerEvent {
    /// The server reports that it is shutting down; the session is over.
    ServerStopped,
    /// The recording output changed state; `path` is the output file the
    /// server reports, when it reports one.
    RecordStateChanged { state: OutputState, path: Option<String> },
    /// Any event the engine does not react to.
    Other,
}

/// What `event_handler` asks the caller to feed into the engine.
#[derive(Debug, Clone)]
pub struct RecordingUpdate {
    pub active: bool,
    pub paused: bool,
    pub path: Option<String>,
    /// On `Stopping` an extra inactive status notification goes out at
    /// once for responsiveness, while the persisted state stays active
    /// until fully stopped.
    pub emit_extra_inactive: bool,
}

/// Decides how to react to one server event: an update to apply, nothing,
/// or an error that ends the session.
pub fn event_handler(event: ServerEvent) -> (r: Result<Option<RecordingUpdate>, String>)
    ensures
        event is ServerStopped ==> (r matches Err(m) && m@
            == "OBS WebSocket server has stopped."@),
        event matches ServerEvent::RecordStateChanged { state, path } ==> (r matches Ok(u) && u
            matches Some(up) && (up.active, up.paused) == spec_map_output_state(state)
            && up.path.deep_view() == path.deep_view() && up.emit_extra_inactive == (
        state is Stopping)),
        event is Other ==> (r matches Ok(u) && u is None),
{
    match event {
        ServerEvent::ServerStopped => Err(String::from_str("OBS WebSocket server has stopped.")),
        ServerEvent::RecordStateChanged { state, path } => {
            let (active, paused) = map_output_state(&state);
            let emit_extra_inactive = match state {
                OutputState::Stopping => true,
                _ => false,
            };
            Ok(Some(RecordingUpdate { active, paused, path, emit_extra_inactive }))
        },
        ServerEvent::Other => Ok(None),
    }
}

/// The epoch the engine records as the start of the recording: backdated by
/// the server-reported duration (plus the granularity correction) when the
/// engine attaches to a recording already in progress.
pub open spec fn spec_effective_start(now: int, existing_duration_ms: Option<i64>) -> int {
    match existing_duration_ms {
        Some(d) => now - d - ATTACH_BACKDATE_MS as int,
        None => now,
    }
}

/// Field changes of a recording start: pause accounting reset, start epoch
/// and fresh note file set.
pub open spec fn spec_start(m: RecModel, note: Seq<char>, effective_start: int) -> RecModel {
    RecModel { note: Some(note), start: Some(effective_start), accum: 0, pause: None, ..m }
}

/// Field changes of a recording stop: everything cleared.
pub open spec fn spec_stop(m: RecModel) -> RecModel {
    RecModel { note: None, start: None, accum: 0, pause: None, ..m }
}

/// Whether the note file moves when the recording stops: only when a note
/// file exists, the server reported an output path, and the note file does
/// not already sit at that path with a `.txt` extension.
pub open spec fn spec_rename_decision(note: Option<Seq<char>>, output: Option<Seq<char>>) -> Option<
    (Seq<char>, Seq<char>),
> {
    match note {
        Some(np) => match output {
            Some(out) => {
                let to = spec_with_txt_ext(out);
                if np != to {
                    Some((np, to))
                } else {
                    None
                }
            },
            None => None,
        },
        None => None,
    }
}

/// The start/stop part of handling one event, over the model.
pub open spec fn spec_lifecycle(
    m: RecModel,
    active: bool,
    was_active: bool,
    path: Option<Seq<char>>,
    effective_start: int,
    cache_dir: Option<Seq<char>>,
) -> RecModel {
    if active && !was_active {
        spec_start(m, spec_resolve_note_path(path, cache_dir, effective_start), effective_start)
    } else if !active && was_active {
        spec_stop(m)
    } else {
        m
    }
}

/// A pause begins: remember when.
pub open spec fn spec_pause_step(m: RecModel, now: int) -> RecModel {
    RecModel { pause: Some(now), ..m }
}

/// A pause ends: its duration joins the accumulated pause time.
pub open spec fn spec_resume_step(m: RecModel, now: int) -> RecModel {
    RecModel {
        accum: m.accum + (match m.pause {
            Some(p) => now - p,
            None => 0,
        }),
        pause: None,
        ..m
    }
}

/// The pause-bookkeeping part of handling one event, over the model.
pub open spec fn spec_handle_pause(
    m: RecModel,
    active: bool,
    paused: bool,
    was_paused: bool,
    now: int,
) -> RecModel {
    if !active {
        m
    } else if paused && !was_paused {
        spec_pause_step(m, now)
    } else if !paused && was_paused {
        spec_resume_step(m, now)
    } else {
        m
    }
}

/// Handling one event in full, over the model: lifecycle first, then pause
/// bookkeeping, then the new status flags.
pub open spec fn spec_update(
    m: RecModel,
    active: bool,
    paused: bool,
    path: Option<Seq<char>>,
    existing_duration_ms: Option<i64>,
    now: int,
    cache_dir: Option<Seq<char>>,
) -> RecModel {
    let m1 = spec_lifecycle(m, active, m.active, path, spec_effective_start(
        now,
        existing_duration_ms,
    ), cache_dir);
    let m2 = spec_handle_pause(m1, active, paused, m.paused, now);
    RecModel { active, paused, ..m2 }
}

/// Accumulated pause time stays in the engine's working range.
pub open spec fn accum_bounded(a: int) -> bool {
    0 <= a <= 3 * (MAX_EPOCH_MS as int)
}

/// Marks the start of a pause at `now`.
pub fn pause_recording(state: &mut RecordingState, now: i64)
    ensures
        final(state).model() == spec_pause_step(old(state).model(), now as int),
{
    state.pause_start = Some(now);
}

/// Ends a pause at `now`: the pause's duration joins the accumulated pause
/// time, and the pause epoch is cleared. Without a recorded pause epoch
/// only the clearing happens.
pub fn resume_recording(state: &mut RecordingState, now: i64)
    requires
        accum_bounded(old(state).accumulated_pause_duration as int),
        0 <= now <= MAX_EPOCH_MS,
        old(state).pause_start matches Some(p) ==> 0 <= p <= now,
    ensures
        final(state).model() == spec_resume_step(old(state).model(), now as int),
        old(state).accumulated_pause_duration <= final(state).accumulated_pause_duration,
{
    if let Some(pause_start) = state.pause_start {
        let pause_duration = now - pause_start;
        state.accumulated_pause_duration = state.accumulated_pause_duration + pause_duration;
    }
    state.pause_start = None;
}

/// Pause bookkeeping for one event: reacts only while active, and only to
/// a change of the paused flag.
pub fn handle_pause_state(
    state: &mut RecordingState,
    active: bool,
    paused: bool,
    was_paused: bool,
    now: i64,
)
    requires
        accum_bounded(old(state).accumulated_pause_duration as int),
        0 <= now <= MAX_EPOCH_MS,
        old(state).pause_start matches Some(p) ==> 0 <= p <= now,
    ensures
        final(state).model() == spec_handle_pause(
            old(state).model(),
            active,
            paused,
            was_paused,
            now as int,
        ),
{
    if !active {
        return ;
    }
    if paused && !was_paused {
        pause_recording(state, now);
    } else if !paused && was_paused {
        resume_recording(state, now);
    }
}

/// Initialises the state for a recording that starts with effective start
/// epoch `now`, and returns the resolved note-file path. The caller creates
/// that file (truncating, parents as needed) and shows the recording-status
/// surface.
pub fn start_recording(
    state: &mut RecordingState,
    path: Option<String>,
    now: i64,
    cache_dir: Option<&str>,
) -> (note_path: String)
    requires
        0 <= now <= MAX_EPOCH_MS,
    ensures
        final(state).model() == spec_start(
            old(state).model(),
            spec_resolve_note_path(path.deep_view(), cache_dir.deep_view(), now as int),
            now as int,
        ),
        note_path@ == spec_resolve_note_path(path.deep_view(), cache_dir.deep_view(), now as int),
{
    state.recording_start = Some(now);
    state.accumulated_pause_duration = 0;
    state.pause_start = None;
    let note_path = resolve_note_file_path(path, cache_dir, now);
    state.note_file_path = Some(note_path.clone());
    note_path
}

/// Where the note file moves when the recording stops.
#[derive(Debug, Clone)]
pub struct NoteRename {
    pub from: String,
    pub to: String,
}

/// Clears the state for a stopped recording and decides whether the note
/// file is renamed to sit next to the reported output. The caller performs
/// the rename and hides the recording surfaces; a rename failure is logged,
/// never fatal.
pub fn stop_recording(state: &mut RecordingState, output_file_path: Option<String>) -> (rename:
    Option<NoteRename>)
    ensures
        final(state).model() == spec_stop(old(state).model()),
        match spec_rename_decision(old(state).model().note, output_file_path.deep_view()) {
            Some(pair) => rename matches Some(rn) && rn.from@ == pair.0 && rn.to@ == pair.1,
            None => rename is None,
        },
{
    state.recording_start = None;
    state.accumulated_pause_duration = 0;
    state.pause_start = None;
    let note = match &state.note_file_path {
        Some(p) => Some(p.clone()),
        None => None,
    };
    state.note_file_path = None;
    match (note, output_file_path) {
        (Some(note_path), Some(output_path)) => {
            let final_note_path = with_txt_extension(output_path.as_str());
            if note_path != final_note_path {
                Some(NoteRename { from: note_path, to: final_note_path })
            } else {
                None
            }
        },
        _ => None,
    }
}

/// Side effects of the start/stop part of one event, for the caller to
/// perform after the state lock is released.
#[derive(Debug, Clone)]
pub struct LifecycleEffects {
    /// A note file to create (truncating, parents as needed).
    pub create_note_file: Option<String>,
    /// A rename moving the note file next to the recording output.
    pub rename_note_file: Option<NoteRename>,
    /// The recording-status surface becomes visible.
    pub show_recording_window: bool,
    /// The recording-status surface is hidden.
    pub hide_recording_window: bool,
    /// The note-capture surface is hidden.
    pub hide_capture_window: bool,
}

/// The start/stop part of handling one event: state changes per
/// `spec_lifecycle`, side effects returned to the caller.
pub fn handle_recording_lifecycle(
    state: &mut RecordingState,
    active: bool,
    was_active: bool,
    path: Option<String>,
    now: i64,
    cache_dir: Option<&str>,
) -> (fx: LifecycleEffects)
    requires
        0 <= now <= MAX_EPOCH_MS,
    ensures
        final(state).model() == spec_lifecycle(
            old(state).model(),
            active,
            was_active,
            path.deep_view(),
            now as int,
            cache_dir.deep_view(),
        ),
        active && !was_active ==> (fx.create_note_file matches Some(p) && p@
            == spec_resolve_note_path(path.deep_view(), cache_dir.deep_view(), now as int)
            && fx.rename_note_file is None && fx.show_recording_window && !fx.hide_recording_window
            && !fx.hide_capture_window),
        !active && was_active ==> (fx.create_note_file is None && !fx.show_recording_window
            && fx.hide_recording_window && fx.hide_capture_window && (match spec_rename_decision(
            old(state).model().note,
            path.deep_view(),
        ) {
            Some(pair) => fx.rename_note_file matches Some(rn) && rn.from@ == pair.0 && rn.to@
                == pair.1,
            None => fx.rename_note_file is None,
        })),
        active == was_active ==> (fx.create_note_file is None && fx.rename_note_file is None
            && !fx.show_recording_window && !fx.hide_recording_window && !fx.hide_capture_window),
{
    if active && !was_active {
        let note_path = start_recording(state, path, now, cache_dir);
        LifecycleEffects {
            create_note_file: Some(note_path),
            rename_note_file: None,
            show_recording_window: true,
            hide_recording_window: false,
            hide_capture_window: false,
        }
    } else if !active && was_active {
        let rename = stop_recording(state, path);
        LifecycleEffects {
            create_note_file: None,
            rename_note_file: rename,
            show_recording_window: false,
            hide_recording_window: true,
            hide_capture_window: true,
        }
    } else {
        LifecycleEffects {
            create_note_file: None,
            rename_note_file: None,
            show_recording_window: false,
            hide_recording_window: false,
            hide_capture_window: false,
        }
    }
}

/// Everything one handled event asks the caller to do, after the state
/// mutation itself.
#[derive(Debug, Clone)]
pub struct EngineEffects {
    pub lifecycle: LifecycleEffects,
    /// The status notification published for this event, exactly once (the
    /// `Stopping` extra notification excepted, see `RecordingUpdate`).
    pub status: RecordingStatus,
}

/// Applies one recording event to the state: start/stop transitions, pause
/// accounting, and the new status flags, as one atomic step on `state`.
/// Timestamps are monotonic: `now` is no earlier than the recorded pause
/// epoch, and recorded time net of pauses never runs backwards past zero.
pub fn update_recording_status(
    state: &mut RecordingState,
    active: bool,
    paused: bool,
    path: Option<String>,
    existing_duration_ms: Option<i64>,
    now: i64,
    cache_dir: Option<&str>,
) -> (fx: EngineEffects)
    requires
        old(state).wf(),
        0 <= now <= MAX_EPOCH_MS,
        existing_duration_ms matches Some(d) ==> 0 <= d && d + ATTACH_BACKDATE_MS <= now,
        old(state).recording_start matches Some(r) ==> r + old(
            state,
        ).accumulated_pause_duration <= now,
        old(state).pause_start matches Some(p) ==> p <= now,
    ensures
        final(state).model() == spec_update(
            old(state).model(),
            active,
            paused,
            path.deep_view(),
            existing_duration_ms,
            now as int,
            cache_dir.deep_view(),
        ),
        final(state).wf(),
        fx.status == (RecordingStatus { active, paused }),
        active && !old(state).recording_status.active ==> (fx.lifecycle.create_note_file matches
            Some(p) && p@ == spec_resolve_note_path(
            path.deep_view(),
            cache_dir.deep_view(),
            spec_effective_start(now as int, existing_duration_ms),
        ) && fx.lifecycle.show_recording_window),
        !active && old(state).recording_status.active ==> (fx.lifecycle.hide_recording_window
            && fx.lifecycle.hide_capture_window && (match spec_rename_decision(
            old(state).model().note,
            path.deep_view(),
        ) {
            Some(pair) => fx.lifecycle.rename_note_file matches Some(rn) && rn.from@ == pair.0
                && rn.to@ == pair.1,
            None => fx.lifecycle.rename_note_file is None,
        })),
        active == old(state).recording_status.active ==> (fx.lifecycle.create_note_file is None
            && fx.lifecycle.rename_note_file is None && !fx.lifecycle.show_recording_window
            && !fx.lifecycle.hide_recording_window && !fx.lifecycle.hide_capture_window),
{
    let was_active = state.recording_status.active;
    let was_paused = state.recording_status.paused;
    let effective_start = match existing_duration_ms {
        Some(d) => now - d - ATTACH_BACKDATE_MS,
        None => now,
    };
    let lifecycle = handle_recording_lifecycle(
        state,
        active,
        was_active,
        path,
        effective_start,
        cache_dir,
    );
    handle_pause_state(state, active, paused, was_paused, now);
    state.recording_status.active = active;
    state.recording_status.paused = paused;
    EngineEffects { lifecycle, status: RecordingStatus { active, paused } }
}

} // verus!
