//! Laws of the lifecycle engine and the timecode calculator, proved over
//! the same model transitions the executable functions are specified by.
use vstd::prelude::*;

use crate::lifecycle::spec_update;
use crate::state::RecModel;
use crate::timecode::spec_capture_err;
use crate::timecode::spec_elapsed;

verus! {

/// Pause/resume accounting, one cycle: out of an inactive state, after
/// start(at `t0`), pause(at `t1`), resume(at `t2`), the accumulated pause
/// time is exactly `t2 - t1`, and a capture at `t3` carries elapsed time
/// `(t3 - t0) - (t2 - t1)`.
pub proof fn lemma_pause_resume_accounting(
    m0: RecModel,
    path: Option<Seq<char>>,
    cache_dir: Option<Seq<char>>,
    t0: int,
    t1: int,
    t2: int,
    t3: int,
)
    requires
        !m0.active,
        t0 <= t1 <= t2 <= t3,
    ensures
        ({
            let m_started = spec_update(m0, true, false, path, None, t0, cache_dir);
            let m_paused = spec_update(m_started, true, true, None, None, t1, cache_dir);
            let m_resumed = spec_update(m_paused, true, false, None, None, t2, cache_dir);
            &&& m_resumed.accum == t2 - t1
            &&& spec_capture_err(m_resumed) is None
            &&& spec_elapsed(m_resumed, t3) == (t3 - t0) - (t2 - t1)
        }),
{
}

/// A pause/resume cycle: paused at `.0`, resumed at `.1`, no other event in
/// between.
pub open spec fn spec_apply_cycles(m: RecModel, cycles: Seq<(int, int)>) -> RecModel
    decreases cycles.len(),
{
    if cycles.len() == 0 {
        m
    } else {
        let m1 = spec_apply_cycles(m, cycles.drop_last());
        let m2 = spec_update(m1, true, true, None, None, cycles.last().0, None);
        spec_update(m2, true, false, None, None, cycles.last().1, None)
    }
}

/// The sum of all pause spans `resume_i - pause_i`.
pub open spec fn sum_pause_spans(cycles: Seq<(int, int)>) -> int
    decreases cycles.len(),
{
    if cycles.len() == 0 {
        0
    } else {
        sum_pause_spans(cycles.drop_last()) + (cycles.last().1 - cycles.last().0)
    }
}

/// Pause/resume accounting, any number of cycles: out of an active,
/// unpaused state, running N pause/resume cycles adds exactly the sum of
/// all `resume_i - pause_i` spans to the accumulated pause time, and
/// changes neither the start epoch nor the activity flags.
pub proof fn lemma_accumulated_pause_is_sum(m: RecModel, cycles: Seq<(int, int)>)
    requires
        m.active,
        !m.paused,
        m.pause is None,
    ensures
        ({
            let m_n = spec_apply_cycles(m, cycles);
            &&& m_n.accum == m.accum + sum_pause_spans(cycles)
            &&& m_n.active
            &&& !m_n.paused
            &&& m_n.pause is None
            &&& m_n.start == m.start
            &&& m_n.note == m.note
        }),
    decreases cycles.len(),
{
    if cycles.len() > 0 {
        lemma_accumulated_pause_is_sum(m, cycles.drop_last());
    }
}

/// Pause/resume accounting, generalized capture: after N pause/resume
/// cycles out of an active, unpaused state, a capture at `at` carries
/// elapsed time `at - start` minus the accumulated and summed pause time.
pub proof fn lemma_capture_after_cycles(m: RecModel, cycles: Seq<(int, int)>, at: int)
    requires
        m.active,
        !m.paused,
        m.pause is None,
        m.start is Some,
    ensures
        spec_capture_err(spec_apply_cycles(m, cycles)) is None,
        spec_elapsed(spec_apply_cycles(m, cycles), at) == at - m.start->0 - m.accum
            - sum_pause_spans(cycles),
{
    lemma_accumulated_pause_is_sum(m, cycles);
}

/// Pause-time note placement: while paused, the timecode a capture carries
/// does not depend on the capture instant — any two instants yield the
/// same elapsed time, pinned to the moment the pause began.
pub proof fn lemma_paused_capture_instant_irrelevant(m: RecModel, at1: int, at2: int)
    requires
        m.paused,
    ensures
        spec_elapsed(m, at1) == spec_elapsed(m, at2),
{
}

/// While a recording stays active, the accumulated pause duration never
/// decreases, whatever event arrives — it grows on a resume and is
/// otherwise untouched. Only a recording start or stop resets it.
pub proof fn lemma_accum_monotone_while_active(
    m: RecModel,
    paused: bool,
    path: Option<Seq<char>>,
    existing_duration_ms: Option<i64>,
    now: int,
    cache_dir: Option<Seq<char>>,
)
    requires
        m.active,
        m.pause matches Some(p) ==> p <= now,
    ensures
        spec_update(m, true, paused, path, existing_duration_ms, now, cache_dir).accum >= m.accum,
{
}

/// Reset on new recording: a stop followed by a new start leaves zero
/// accumulated pause time and no pause epoch, whatever the prior session
/// had accumulated.
pub proof fn lemma_reset_on_new_recording(
    m: RecModel,
    stop_path: Option<Seq<char>>,
    t_stop: int,
    start_path: Option<Seq<char>>,
    start_duration: Option<i64>,
    t_start: int,
    cache_dir: Option<Seq<char>>,
)
    requires
        m.active,
    ensures
        ({
            let m_stopped = spec_update(m, false, false, stop_path, None, t_stop, cache_dir);
            let m_restarted = spec_update(
                m_stopped,
                true,
                false,
                start_path,
                start_duration,
                t_start,
                cache_dir,
            );
            &&& m_restarted.accum == 0
            &&& m_restarted.pause is None
            &&& !m_restarted.paused
        }),
{
}

} // verus!
