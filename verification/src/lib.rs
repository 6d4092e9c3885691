//! Companion library for a background process that supervises a control
//! connection to a remote recording server, tracks the server's recording
//! lifecycle, and places timestamped notes relative to actual recorded time
//! (net of pauses).
use vstd::prelude::*;

pub mod constants;
pub mod laws;
pub mod lifecycle;
pub mod models;
pub mod notefile;
pub mod numfmt;
pub mod positioner;
pub mod shortcuts;
pub mod state;
pub mod supervisor;
pub mod system_tray;
pub mod timecode;
pub mod window_utilities;

verus! {

/// Milliseconds of recorded time, net of pauses, between a recording start
/// epoch and a capture instant, given the pause time already accumulated.
pub open spec fn net_elapsed_ms(start: int, accumulated_pause: int, at: int) -> int {
    (at - start) - accumulated_pause
}

} // verus!
