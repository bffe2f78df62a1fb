//! Per-loop configuration as the later session phases carry it.

use vstd::prelude::*;

verus! {

#[derive(Clone, Copy, PartialEq, Eq, Structural)]
pub struct LoopState {
    /// The length of the loop in beats.
    pub beat_count: u32,
    /// Whether the loop should start immediately after count-in.
    pub starting: bool,
    /// Whether the loop should be layered on top of previous recordings.
    pub layering: bool,
    /// Per-loop effect switches.
    pub wah: bool,
    pub reverb: bool,
    pub distortion: bool,
}

impl Default for LoopState {
    fn default() -> (l: LoopState)
        ensures
            l.beat_count == 4,
            !l.starting,
            !l.layering,
            !l.wah,
            !l.reverb,
            !l.distortion,
    {
        LoopState {
            beat_count: 4,
            starting: false,
            layering: false,
            wah: false,
            reverb: false,
            distortion: false,
        }
    }
}

} // verus!
