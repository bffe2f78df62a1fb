//! The count-in phase: the click is running and the session waits for
//! the engine's rolling-started event.

use vstd::prelude::*;

verus! {

use crate::callback::SLOT_COUNT;
use crate::loops::LoopState;
use crate::prepare::PrepareState;
use crate::ui::UiKey;

pub struct CountInState {
    /// Tempo in milli-BPM.
    pub mbpm: u32,
    /// The application should exit.
    pub exit: bool,
    /// The session should advance to the rolling phase.
    pub next_phase: bool,
    /// The selected loop.
    pub selected: usize,
    /// The configured loops.
    pub loops: Vec<LoopState>,
}

impl CountInState {
    pub open spec fn wf(self) -> bool {
        &&& 1000 <= self.mbpm <= 3_000_000
        &&& 1 <= self.loops.len() <= SLOT_COUNT
        &&& self.selected < self.loops.len()
    }

    pub fn from_prepare_state(prepare_state: PrepareState) -> (c: CountInState)
        requires
            prepare_state.wf(),
        ensures
            c.wf(),
            c.mbpm == prepare_state.mbpm,
            !c.exit,
            !c.next_phase,
            c.selected == 0,
            c.loops@ == prepare_state.loops@,
    {
        CountInState {
            mbpm: prepare_state.mbpm,
            exit: false,
            next_phase: false,
            selected: 0,
            loops: prepare_state.loops,
        }
    }

    pub fn phase_changing(&self) -> (b: bool)
        ensures
            b == self.next_phase,
    {
        self.next_phase
    }

    pub fn exiting(&self) -> (b: bool)
        ensures
            b == self.exit,
    {
        self.exit
    }

    /// The engine reported that the count-in completed: advance.
    pub fn on_rolling_started(&mut self)
        requires
            old(self).wf(),
        ensures
            final(self).wf(),
            *final(self) == (CountInState { next_phase: true, ..*old(self) }),
    {
        self.next_phase = true;
    }

    /// Move the selection down, wrapping.
    pub fn select_next(&mut self)
        requires
            old(self).wf(),
        ensures
            final(self).wf(),
            *final(self) == (CountInState { selected: final(self).selected, ..*old(self) }),
            final(self).selected == if old(self).selected + 1 >= old(self).loops.len() {
                0int
            } else {
                old(self).selected + 1
            },
    {
        if self.selected + 1 >= self.loops.len() {
            self.selected = 0;
        } else {
            self.selected = self.selected + 1;
        }
    }

    /// Move the selection up, wrapping.
    pub fn select_priv(&mut self)
        requires
            old(self).wf(),
        ensures
            final(self).wf(),
            *final(self) == (CountInState { selected: final(self).selected, ..*old(self) }),
            final(self).selected == if old(self).selected == 0 {
                old(self).loops.len() - 1
            } else {
                old(self).selected - 1
            },
    {
        if self.selected == 0 {
            self.selected = self.loops.len() - 1;
        } else {
            self.selected = self.selected - 1;
        }
    }

    /// Decide on one key press.  Space asks the control plane to toggle
    /// the arming flag of the selected slot, which the caller performs.
    pub fn handle_key_event(&mut self, key: UiKey) -> (toggle: Option<usize>)
        requires
            old(self).wf(),
            key != UiKey::Enter,
        ensures
            final(self).wf(),
            key == UiKey::Char('q') ==> *final(self) == (CountInState {
                exit: true,
                ..*old(self)
            }) && toggle is None,
            key == UiKey::Char(' ') ==> *final(self) == *old(self) && toggle == Some(
                old(self).selected,
            ),
            key == UiKey::Up || key == UiKey::Down ==> toggle is None,
            final(self).selected < final(self).loops.len(),
    {
        match key {
            UiKey::Char(c) => {
                if c == 'q' {
                    self.exit = true;
                    None
                } else if c == ' ' {
                    Some(self.selected)
                } else {
                    None
                }
            },
            UiKey::Up => {
                self.select_priv();
                None
            },
            UiKey::Down => {
                self.select_next();
                None
            },
            _ => None,
        }
    }
}

} // verus!
