//! The note timecode calculator: given the recording state and a capture
//! instant, computes the recording-relative elapsed time net of pauses and
//! renders the `[HH:MM:SS.mmm] note` line for the note file.
use vstd::prelude::*;
use vstd::string::StringExecFns;

use crate::net_elapsed_ms;
use crate::numfmt::push_dec;
use crate::numfmt::spec_dec;
use crate::state::MAX_EPOCH_MS;
use crate::state::RecModel;
use crate::state::RecordingState;

verus! {

/// Why a note capture was refused.
#[derive(Debug, Clone, Copy, PartialEq, Eq, Structural)]
pub enum CaptureError {
    /// No recording is active.
    NotActive,
    /// A recording is active but its start epoch is missing.
    StartTimeMissing,
    /// The recording is paused but the pause epoch is missing.
    PauseTimeMissing,
    /// The shared state lock could not be taken.
    LockUnavailable,
    /// The note file could not be opened or written.
    FileWrite,
}

impl CaptureError {
    pub fn message(&self) -> (m: &str)
        ensures
            *self is NotActive ==> m@ == "Recording is not active"@,
            *self is StartTimeMissing ==> m@ == "Recording start time is not set"@,
            *self is PauseTimeMissing ==> m@ == "Paused but pause time not set"@,
            *self is LockUnavailable ==> m@ == "Failed to lock recording state"@,
            *self is FileWrite ==> m@ == "Failed to write note to file"@,
    {
        match self {
            CaptureError::NotActive => "Recording is not active",
            CaptureError::StartTimeMissing => "Recording start time is not set",
            CaptureError::PauseTimeMissing => "Paused but pause time not set",
            CaptureError::LockUnavailable => "Failed to lock recording state",
            CaptureError::FileWrite => "Failed to write note to file",
        }
    }
}

/// The precondition check of a capture, each failure distinct: a recording
/// must be active, its start epoch set, and, while paused, the pause epoch
/// set.
pub open spec fn spec_capture_err(m: RecModel) -> Option<CaptureError> {
    if !m.active {
        Some(CaptureError::NotActive)
    } else if m.start is None {
        Some(CaptureError::StartTimeMissing)
    } else if m.paused && m.pause is None {
        Some(CaptureError::PauseTimeMissing)
    } else {
        None
    }
}

/// The elapsed recorded time a note captured at instant `at` carries. While
/// paused it is pinned to the moment the pause began — recorded time has
/// not advanced since — and does not depend on `at`.
pub open spec fn spec_elapsed(m: RecModel, at: int) -> int
    recommends
        spec_capture_err(m) is None,
{
    if m.paused {
        net_elapsed_ms(m.start->0, m.accum, m.pause->0)
    } else {
        net_elapsed_ms(m.start->0, m.accum, at)
    }
}

/// Timestamp fields within the range the calculator's arithmetic covers.
pub open spec fn time_fields_bounded(m: RecModel) -> bool {
    &&& m.start matches Some(r) ==> -(MAX_EPOCH_MS as int) <= r <= MAX_EPOCH_MS as int
    &&& m.pause matches Some(p) ==> -(MAX_EPOCH_MS as int) <= p <= MAX_EPOCH_MS as int
    &&& -3 * (MAX_EPOCH_MS as int) <= m.accum <= 3 * (MAX_EPOCH_MS as int)
}

/// At least two digits, zero-padded.
pub open spec fn spec_pad2(n: int) -> Seq<char> {
    if n < 10 {
        seq!['0'] + spec_dec(n)
    } else {
        spec_dec(n)
    }
}

/// Exactly three digits for values below 1000, zero-padded.
pub open spec fn spec_pad3(n: int) -> Seq<char> {
    if n < 10 {
        seq!['0', '0'] + spec_dec(n)
    } else if n < 100 {
        seq!['0'] + spec_dec(n)
    } else {
        spec_dec(n)
    }
}

/// `HH:MM:SS.mmm` for an elapsed time in milliseconds: hours unbounded,
/// minutes and seconds modulo 60, milliseconds modulo 1000, each
/// zero-padded.
pub open spec fn spec_timecode(ms: int) -> Seq<char> {
    spec_pad2(ms / 3600000) + seq![':'] + spec_pad2((ms / 60000) % 60) + seq![':'] + spec_pad2(
        (ms / 1000) % 60,
    ) + seq!['.'] + spec_pad3(ms % 1000)
}

fn push_pad2(out: &mut String, n: u64)
    ensures
        final(out)@ == old(out)@ + spec_pad2(n as int),
{
    proof {
        reveal_strlit("0");
    }
    if n < 10 {
        out.append("0");
    }
    push_dec(out, n);
    proof {
        if n < 10 {
            assert(old(out)@ + "0"@ + spec_dec(n as int) =~= old(out)@ + spec_pad2(n as int));
        }
    }
}

fn push_pad3(out: &mut String, n: u64)
    ensures
        final(out)@ == old(out)@ + spec_pad3(n as int),
{
    proof {
        reveal_strlit("0");
        reveal_strlit("00");
    }
    if n < 10 {
        out.append("00");
    } else if n < 100 {
        out.append("0");
    }
    push_dec(out, n);
    proof {
        if n < 10 {
            assert(old(out)@ + "00"@ + spec_dec(n as int) =~= old(out)@ + spec_pad3(n as int));
        } else if n < 100 {
            assert(old(out)@ + "0"@ + spec_dec(n as int) =~= old(out)@ + spec_pad3(n as int));
        }
    }
}

/// Renders a non-negative elapsed time as `HH:MM:SS.mmm`.
pub fn format_timecode(ms: i64) -> (r: String)
    requires
        0 <= ms,
    ensures
        r@ == spec_timecode(ms as int),
{
    proof {
        reveal_strlit(":");
        reveal_strlit(".");
        assert(":"@ =~= seq![':']);
        assert("."@ =~= seq!['.']);
    }
    let msu = ms as u64;
    let hours = msu / 3600000;
    let minutes = (msu / 60000) % 60;
    let seconds = (msu / 1000) % 60;
    let millis = msu % 1000;
    let mut s = String::new();
    push_pad2(&mut s, hours);
    s.append(":");
    push_pad2(&mut s, minutes);
    s.append(":");
    push_pad2(&mut s, seconds);
    s.append(".");
    push_pad3(&mut s, millis);
    proof {
        assert(s@ =~= spec_timecode(ms as int));
    }
    s
}

/// The line appended to the note file for a note with the given elapsed
/// time (the caller adds the line terminator).
pub open spec fn spec_note_line(elapsed_ms: int, note: Seq<char>) -> Seq<char> {
    seq!['['] + spec_timecode(elapsed_ms) + seq![']', ' '] + note
}

/// A note line ready to append, and the file it belongs in.
#[derive(Debug, Clone, PartialEq, Eq)]
pub struct NoteLine {
    pub path: String,
    pub line: String,
}

/// Computes the note line for a capture at instant `note_timestamp_ms`:
/// refused with a distinct reason when no recording is active, the start
/// epoch is missing, or the state is paused without a pause epoch; yields
/// nothing when no note file is recorded; otherwise the `[HH:MM:SS.mmm]
/// note` line for the note file. In correct operation the elapsed time is
/// never negative; the last precondition states that.
pub fn capture_note(state: &RecordingState, note: &str, note_timestamp_ms: i64) -> (r: Result<
    Option<NoteLine>,
    CaptureError,
>)
    requires
        time_fields_bounded(state.model()),
        -MAX_EPOCH_MS <= note_timestamp_ms <= MAX_EPOCH_MS,
        spec_capture_err(state.model()) is None ==> 0 <= spec_elapsed(
            state.model(),
            note_timestamp_ms as int,
        ),
    ensures
        spec_capture_err(state.model()) matches Some(e) ==> r == Err::<
            Option<NoteLine>,
            CaptureError,
        >(e),
        spec_capture_err(state.model()) is None && state.model().note is None ==> (r matches Ok(o)
            && o is None),
        spec_capture_err(state.model()) is None && state.model().note is Some ==> (r matches Ok(o)
            && o matches Some(nl) && nl.path@ == state.model().note->0 && nl.line@
            == spec_note_line(spec_elapsed(state.model(), note_timestamp_ms as int), note@)),
{
    proof {
        reveal_strlit("[");
        reveal_strlit("] ");
        assert("["@ =~= seq!['[']);
        assert("] "@ =~= seq![']', ' ']);
    }
    if !state.recording_status.active {
        return Err(CaptureError::NotActive);
    }
    let recording_start = match state.recording_start {
        Some(t) => t,
        None => {
            return Err(CaptureError::StartTimeMissing);
        },
    };
    let elapsed = if state.recording_status.paused {
        match state.pause_start {
            Some(pause_start) => (pause_start - recording_start)
                - state.accumulated_pause_duration,
            None => {
                return Err(CaptureError::PauseTimeMissing);
            },
        }
    } else {
        (note_timestamp_ms - recording_start) - state.accumulated_pause_duration
    };
    match &state.note_file_path {
        Some(path) => {
            let timecode = format_timecode(elapsed);
            let mut line = String::from_str("[");
            line.append(timecode.as_str());
            line.append("] ");
            line.append(note);
            proof {
                assert(line@ =~= spec_note_line(
                    spec_elapsed(state.model(), note_timestamp_ms as int),
                    note@,
                ));
            }
            Ok(Some(NoteLine { path: path.clone(), line }))
        },
        None => Ok(None),
    }
}

} // verus!
