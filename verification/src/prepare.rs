//! The prepare phase: the configuration is frozen and published to the
//! audio engine, and a count-in is requested.

use vstd::prelude::*;

verus! {

use crate::callback::SLOT_COUNT;
use crate::loops::LoopState;
use crate::setup::SetUpState;
use crate::ui::UiKey;

/// The values the session publishes to the engine's control plane when
/// the count-in is requested.
pub struct ControlUpdate {
    /// Loop length in beats per configured loop.
    pub loop_length: Vec<u32>,
    /// Arming flag for every slot: configured loops keep their choice,
    /// the remaining slots are disarmed.
    pub loop_starting: Vec<bool>,
    /// Layering flag per configured loop.
    pub loop_layering: Vec<bool>,
    /// The requested count-in length in beats.
    pub countin_length: u32,
    /// The count-in request flag itself.
    pub countin: bool,
}

pub struct PrepareState {
    /// Tempo in milli-BPM.
    pub mbpm: u32,
    /// The application should exit.
    pub exit: bool,
    /// The session should advance to the count-in phase.
    pub next_phase: bool,
    /// The configured loops.
    pub loops: Vec<LoopState>,
}

impl PrepareState {
    pub open spec fn wf(self) -> bool {
        &&& 1000 <= self.mbpm <= 3_000_000
        &&& 1 <= self.loops.len() <= SLOT_COUNT
    }

    /// Freeze a finished setup into the prepare phase; the effect
    /// switches of each loop start out off.
    pub fn from_setup_state(setup_state: SetUpState) -> (p: PrepareState)
        requires
            setup_state.wf(),
        ensures
            p.wf(),
            p.mbpm == setup_state.mbpm,
            !p.exit,
            !p.next_phase,
            p.loops.len() == setup_state.loops.len(),
            forall|i: int|
                0 <= i < setup_state.loops.len() ==> #[trigger] p.loops@[i] == (LoopState {
                    beat_count: setup_state.loops@[i].beat_count,
                    starting: setup_state.loops@[i].starting,
                    layering: setup_state.loops@[i].layering,
                    wah: false,
                    reverb: false,
                    distortion: false,
                }),
    {
        let mut loops: Vec<LoopState> = Vec::new();
        let mut i: usize = 0;
        while i < setup_state.loops.len()
            invariant
                i <= setup_state.loops.len(),
                loops.len() == i,
                forall|j: int|
                    0 <= j < i ==> #[trigger] loops@[j] == (LoopState {
                        beat_count: setup_state.loops@[j].beat_count,
                        starting: setup_state.loops@[j].starting,
                        layering: setup_state.loops@[j].layering,
                        wah: false,
                        reverb: false,
                        distortion: false,
                    }),
            decreases setup_state.loops.len() - i,
        {
            let l = setup_state.loops[i];
            loops.push(
                LoopState {
                    beat_count: l.beat_count,
                    starting: l.starting,
                    layering: l.layering,
                    wah: false,
                    reverb: false,
                    distortion: false,
                },
            );
            i = i + 1;
        }
        PrepareState { mbpm: setup_state.mbpm, exit: false, next_phase: false, loops }
    }

    pub fn phase_changing(&self) -> (b: bool)
        ensures
            b == self.next_phase,
    {
        self.next_phase
    }

    pub fn exiting(&self) -> (b: bool)
        ensures
            b == self.exit,
    {
        self.exit
    }

    /// Build the control-plane publication that starts an eight-beat
    /// count-in with the configured loops, and advance the phase.
    pub fn start_countin(&mut self) -> (u: ControlUpdate)
        requires
            old(self).wf(),
        ensures
            final(self).wf(),
            *final(self) == (PrepareState { next_phase: true, ..*old(self) }),
            u.loop_length.len() == old(self).loops.len(),
            u.loop_layering.len() == old(self).loops.len(),
            u.loop_starting.len() == SLOT_COUNT,
            forall|i: int|
                0 <= i < old(self).loops.len() ==> #[trigger] u.loop_length@[i] == old(
                    self,
                ).loops@[i].beat_count,
            forall|i: int|
                0 <= i < old(self).loops.len() ==> #[trigger] u.loop_layering@[i] == old(
                    self,
                ).loops@[i].layering,
            forall|i: int|
                0 <= i < SLOT_COUNT ==> #[trigger] u.loop_starting@[i] == if i < old(
                    self,
                ).loops.len() {
                    old(self).loops@[i].starting
                } else {
                    false
                },
            u.countin_length == 8,
            u.countin,
    {
        let mut loop_length: Vec<u32> = Vec::new();
        let mut loop_starting: Vec<bool> = Vec::new();
        let mut loop_layering: Vec<bool> = Vec::new();
        let mut i: usize = 0;
        while i < self.loops.len()
            invariant
                *self == *old(self),
                old(self).wf(),
                i <= self.loops.len(),
                loop_length.len() == i,
                loop_starting.len() == i,
                loop_layering.len() == i,
                forall|j: int|
                    0 <= j < i ==> #[trigger] loop_length@[j] == self.loops@[j].beat_count,
                forall|j: int|
                    0 <= j < i ==> #[trigger] loop_starting@[j] == self.loops@[j].starting,
                forall|j: int|
                    0 <= j < i ==> #[trigger] loop_layering@[j] == self.loops@[j].layering,
            decreases self.loops.len() - i,
        {
            let l = self.loops[i];
            loop_length.push(l.beat_count);
            loop_starting.push(l.starting);
            loop_layering.push(l.layering);
            i = i + 1;
        }
        while loop_starting.len() < SLOT_COUNT
            invariant
                *self == *old(self),
                old(self).wf(),
                self.loops.len() <= loop_starting.len() <= SLOT_COUNT,
                forall|j: int|
                    0 <= j < self.loops.len() ==> #[trigger] loop_starting@[j]
                        == self.loops@[j].starting,
                forall|j: int|
                    self.loops.len() <= j < loop_starting.len() ==> #[trigger] loop_starting@[j]
                        == false,
            decreases SLOT_COUNT - loop_starting.len(),
        {
            loop_starting.push(false);
        }
        self.next_phase = true;
        ControlUpdate { loop_length, loop_starting, loop_layering, countin_length: 8, countin: true }
    }

    /// Decide on one key press: quit, or request the count-in.
    pub fn handle_key_event(&mut self, key: UiKey) -> (u: Option<ControlUpdate>)
        requires
            old(self).wf(),
        ensures
            final(self).wf(),
            key == UiKey::Char('q') ==> *final(self) == (PrepareState {
                exit: true,
                ..*old(self)
            }) && u is None,
            key == UiKey::Char(' ') ==> u is Some && *final(self) == (PrepareState {
                next_phase: true,
                ..*old(self)
            }),
            key != UiKey::Char('q') && key != UiKey::Char(' ') ==> *final(self) == *old(self) && u
                is None,
    {
        match key {
            UiKey::Char(c) => {
                if c == 'q' {
                    self.exit = true;
                    None
                } else if c == ' ' {
                    Some(self.start_countin())
                } else {
                    None
                }
            },
            _ => None,
        }
    }
}

} // verus!
