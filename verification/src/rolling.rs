//! The rolling phase: loops record and play while the performer can
//! re-arm slots and trigger pads.

use vstd::prelude::*;

verus! {

use crate::callback::SLOT_COUNT;
use crate::countin::CountInState;
use crate::loops::LoopState;
use crate::ui::UiKey;

/// What a key press during the rolling phase asks the caller to do.
#[derive(Clone, Copy, Debug, PartialEq, Eq, Structural)]
pub enum RollingAction {
    /// Toggle the arming flag of a slot on the control plane.
    ToggleStarting(usize),
    /// Fire a sample pad.
    Pad(usize),
}

pub struct RollingState {
    /// Tempo in milli-BPM.
    pub mbpm: u32,
    /// The application should exit.
    pub exit: bool,
    /// The session should fall back to the setup phase.
    pub next_phase: bool,
    /// The selected loop.
    pub selected: usize,
    /// The configured loops.
    pub loops: Vec<LoopState>,
}

impl RollingState {
    pub open spec fn wf(self) -> bool {
        &&& 1000 <= self.mbpm <= 3_000_000
        &&& 1 <= self.loops.len() <= SLOT_COUNT
        &&& self.selected < self.loops.len()
    }

    pub fn from_countin_state(countin_state: CountInState) -> (r: RollingState)
        requires
            countin_state.wf(),
        ensures
            r.wf(),
            r.mbpm == countin_state.mbpm,
            !r.exit,
            !r.next_phase,
            r.selected == countin_state.selected,
            r.loops@ == countin_state.loops@,
    {
        RollingState {
            mbpm: countin_state.mbpm,
            exit: false,
            next_phase: false,
            selected: countin_state.selected,
            loops: countin_state.loops,
        }
    }

    pub fn phase_changing(&self) -> (b: bool)
        ensures
            b == self.next_phase,
    {
        self.next_phase
    }

    pub fn exiting(&self) -> (b: bool)
        ensures
            b == self.exit,
    {
        self.exit
    }

    /// Move the selection down, wrapping.
    pub fn select_next(&mut self)
        requires
            old(self).wf(),
        ensures
            final(self).wf(),
            *final(self) == (RollingState { selected: final(self).selected, ..*old(self) }),
            final(self).selected == if old(self).selected + 1 >= old(self).loops.len() {
                0int
            } else {
                old(self).selected + 1
            },
    {
        if self.selected + 1 >= self.loops.len() {
            self.selected = 0;
        } else {
            self.selected = self.selected + 1;
        }
    }

    /// Move the selection up, wrapping.
    pub fn select_priv(&mut self)
        requires
            old(self).wf(),
        ensures
            final(self).wf(),
            *final(self) == (RollingState { selected: final(self).selected, ..*old(self) }),
            final(self).selected == if old(self).selected == 0 {
                old(self).loops.len() - 1
            } else {
                old(self).selected - 1
            },
    {
        if self.selected == 0 {
            self.selected = self.loops.len() - 1;
        } else {
            self.selected = self.selected - 1;
        }
    }

    /// Decide on one key press: digit keys fire pads, space re-arms the
    /// selected slot, escape ends the session.
    pub fn handle_key_event(&mut self, key: UiKey) -> (action: Option<RollingAction>)
        requires
            old(self).wf(),
            key != UiKey::Enter,
        ensures
            final(self).wf(),
            key == UiKey::Char('1') ==> action == Some(RollingAction::Pad(0usize)),
            key == UiKey::Char('2') ==> action == Some(RollingAction::Pad(1usize)),
            key == UiKey::Char('3') ==> action == Some(RollingAction::Pad(2usize)),
            key == UiKey::Char('q') ==> *final(self) == (RollingState {
                exit: true,
                ..*old(self)
            }) && action is None,
            key == UiKey::Esc ==> *final(self) == (RollingState {
                next_phase: true,
                ..*old(self)
            }) && action is None,
            key == UiKey::Char(' ') ==> *final(self) == *old(self) && action == Some(
                RollingAction::ToggleStarting(old(self).selected),
            ),
            final(self).selected < final(self).loops.len(),
    {
        match key {
            UiKey::Char(c) => {
                if c == '1' {
                    Some(RollingAction::Pad(0))
                } else if c == '2' {
                    Some(RollingAction::Pad(1))
                } else if c == '3' {
                    Some(RollingAction::Pad(2))
                } else if c == 'q' {
                    self.exit = true;
                    None
                } else if c == ' ' {
                    Some(RollingAction::ToggleStarting(self.selected))
                } else {
                    None
                }
            },
            UiKey::Esc => {
                self.next_phase = true;
                None
            },
            UiKey::Up => {
                self.select_priv();
                None
            },
            UiKey::Down => {
                self.select_next();
                None
            },
            _ => None,
        }
    }
}

} // verus!
