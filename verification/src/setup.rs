//! The setup phase: tempo and loop configuration before a session.

use vstd::prelude::*;

verus! {

use crate::ui::UiKey;

/// Per-loop configuration as edited during setup.
#[derive(Clone, Copy, PartialEq, Eq, Structural)]
pub struct LoopState {
    /// The length of the loop in beats.
    pub beat_count: u32,
    /// Whether the loop should start immediately after count-in.
    pub starting: bool,
    /// Whether the loop should be layered on top of previous recordings.
    pub layering: bool,
}

impl Default for LoopState {
    fn default() -> (l: LoopState)
        ensures
            l.beat_count == 4,
            !l.starting,
            !l.layering,
    {
        LoopState { beat_count: 4, starting: false, layering: false }
    }
}

/// The editable session configuration: cursor row 0 is the tempo, rows
/// `1..=loops.len()` are the loops.
pub struct SetUpState {
    /// Tempo in milli-BPM.
    pub mbpm: u32,
    /// Step of a tempo adjustment, in milli-BPM.
    pub precision: u32,
    /// The application should exit.
    pub exit: bool,
    /// The session should advance to the prepare phase.
    pub next_phase: bool,
    /// The selected row.
    pub selected: usize,
    /// The configured loops.
    pub loops: Vec<LoopState>,
    /// How many control-plane messages have been shown.
    pub error_count: usize,
    /// The last control-plane message.
    pub last_error: String,
}

impl SetUpState {
    pub open spec fn wf(self) -> bool {
        &&& 1000 <= self.mbpm <= 3_000_000
        &&& self.precision == 10_000 || self.precision == 1_000 || self.precision == 100
            || self.precision == 10
        &&& 1 <= self.loops.len() <= 8
        &&& self.selected <= self.loops.len()
        &&& forall|i: int| 0 <= i < self.loops.len() ==> 1 <= (#[trigger] self.loops@[i]).beat_count <= 16
    }

    /// The configuration a session starts from: 120 BPM, one loop of four
    /// beats armed to start.
    pub fn new() -> (s: SetUpState)
        ensures
            s.wf(),
            s.mbpm == 120_000,
            s.precision == 10_000,
            !s.exit,
            !s.next_phase,
            s.selected == 0,
            s.loops@.len() == 1,
            s.loops@[0] == (LoopState { beat_count: 4, starting: true, layering: false }),
            s.error_count == 0,
    {
        let mut loops: Vec<LoopState> = Vec::new();
        loops.push(LoopState { beat_count: 4, starting: true, layering: false });
        SetUpState {
            mbpm: 120_000,
            precision: 10_000,
            exit: false,
            next_phase: false,
            selected: 0,
            loops,
            error_count: 0,
            last_error: String::new(),
        }
    }

    pub fn phase_changing(&self) -> (b: bool)
        ensures
            b == self.next_phase,
    {
        self.next_phase
    }

    pub fn exiting(&self) -> (b: bool)
        ensures
            b == self.exit,
    {
        self.exit
    }

    /// Record a control-plane message for display.
    pub fn record_message(&mut self, message: String)
        requires
            old(self).wf(),
            old(self).error_count < usize::MAX,
        ensures
            final(self).wf(),
            *final(self) == (SetUpState {
                error_count: (old(self).error_count + 1) as usize,
                last_error: final(self).last_error,
                ..*old(self)
            }),
            final(self).last_error@ == message@,
    {
        self.last_error = message;
        self.error_count = self.error_count + 1;
    }

    /// Append a fresh loop, up to eight.
    pub fn add_loop(&mut self)
        requires
            old(self).wf(),
        ensures
            final(self).wf(),
            *final(self) == (SetUpState { loops: final(self).loops, ..*old(self) }),
            old(self).loops.len() >= 8 ==> final(self).loops@ == old(self).loops@,
            old(self).loops.len() < 8 ==> final(self).loops@ == old(self).loops@.push(
                LoopState { beat_count: 4, starting: false, layering: false },
            ),
    {
        if self.loops.len() >= 8 {
            return ;
        }
        self.loops.push(LoopState { beat_count: 4, starting: false, layering: false });
    }

    /// Lower the tempo by one step, not below 1 BPM.
    pub fn decrement_bpm(&mut self)
        requires
            old(self).wf(),
        ensures
            final(self).wf(),
            *final(self) == (SetUpState { mbpm: final(self).mbpm, ..*old(self) }),
            final(self).mbpm == if old(self).mbpm >= old(self).precision + 1000 {
                old(self).mbpm - old(self).precision
            } else {
                1000int
            },
    {
        let lowered = if self.mbpm >= self.precision {
            self.mbpm - self.precision
        } else {
            0
        };
        self.mbpm = if lowered > 1000 {
            lowered
        } else {
            1000
        };
    }

    /// Raise the tempo by one step, not above 3000 BPM.
    pub fn increment_bpm(&mut self)
        requires
            old(self).wf(),
        ensures
            final(self).wf(),
            *final(self) == (SetUpState { mbpm: final(self).mbpm, ..*old(self) }),
            final(self).mbpm == if old(self).mbpm + old(self).precision <= 3_000_000 {
                old(self).mbpm + old(self).precision
            } else {
                3_000_000int
            },
    {
        let raised = self.mbpm + self.precision;
        self.mbpm = if raised < 3_000_000 {
            raised
        } else {
            3_000_000
        };
    }

    /// On the tempo row, lower the tempo; on a loop row, shorten the loop
    /// (one beat at least).
    pub fn decrement(&mut self)
        requires
            old(self).wf(),
        ensures
            final(self).wf(),
            old(self).selected == 0 ==> *final(self) == (SetUpState {
                mbpm: final(self).mbpm,
                ..*old(self)
            }) && final(self).mbpm == if old(self).mbpm >= old(self).precision + 1000 {
                old(self).mbpm - old(self).precision
            } else {
                1000int
            },
            old(self).selected != 0 ==> *final(self) == (SetUpState {
                loops: final(self).loops,
                ..*old(self)
            }) && final(self).loops@ == old(self).loops@.update(
                old(self).selected - 1,
                LoopState {
                    beat_count: if old(self).loops@[old(self).selected - 1].beat_count >= 2 {
                        (old(self).loops@[old(self).selected - 1].beat_count - 1) as u32
                    } else {
                        1u32
                    },
                    ..old(self).loops@[old(self).selected - 1]
                },
            ),
    {
        if self.selected == 0 {
            self.decrement_bpm();
        } else {
            let i = self.selected - 1;
            let mut l = self.loops[i];
            l.beat_count = if l.beat_count >= 2 {
                l.beat_count - 1
            } else {
                1
            };
            self.loops.set(i, l);
        }
    }

    /// On the tempo row, raise the tempo; on a loop row, lengthen the
    /// loop (sixteen beats at most).
    pub fn increment(&mut self)
        requires
            old(self).wf(),
        ensures
            final(self).wf(),
            old(self).selected == 0 ==> *final(self) == (SetUpState {
                mbpm: final(self).mbpm,
                ..*old(self)
            }) && final(self).mbpm == if old(self).mbpm + old(self).precision <= 3_000_000 {
                old(self).mbpm + old(self).precision
            } else {
                3_000_000int
            },
            old(self).selected != 0 ==> *final(self) == (SetUpState {
                loops: final(self).loops,
                ..*old(self)
            }) && final(self).loops@ == old(self).loops@.update(
                old(self).selected - 1,
                LoopState {
                    beat_count: if old(self).loops@[old(self).selected - 1].beat_count + 1 <= 16 {
                        (old(self).loops@[old(self).selected - 1].beat_count + 1) as u32
                    } else {
                        16u32
                    },
                    ..old(self).loops@[old(self).selected - 1]
                },
            ),
    {
        if self.selected == 0 {
            self.increment_bpm();
        } else {
            let i = self.selected - 1;
            let mut l = self.loops[i];
            l.beat_count = if l.beat_count < 16 {
                l.beat_count + 1
            } else {
                16
            };
            self.loops.set(i, l);
        }
    }

    /// Cycle the tempo adjustment step: 10 -> 1 -> 0.1 -> 0.01 -> 10 BPM.
    pub fn change_precision(&mut self)
        requires
            old(self).wf(),
        ensures
            final(self).wf(),
            *final(self) == (SetUpState { precision: final(self).precision, ..*old(self) }),
            final(self).precision == if old(self).precision == 10_000 {
                1_000int
            } else if old(self).precision == 1_000 {
                100int
            } else if old(self).precision == 100 {
                10int
            } else {
                10_000int
            },
    {
        self.precision = if self.precision == 10_000 {
            1_000
        } else if self.precision == 1_000 {
            100
        } else if self.precision == 100 {
            10
        } else {
            10_000
        };
    }

    /// Move the cursor down, wrapping from the last loop to the tempo.
    pub fn select_next(&mut self)
        requires
            old(self).wf(),
        ensures
            final(self).wf(),
            *final(self) == (SetUpState { selected: final(self).selected, ..*old(self) }),
            final(self).selected == if old(self).selected == 0 {
                1int
            } else if old(self).selected >= old(self).loops.len() {
                0int
            } else {
                old(self).selected + 1
            },
    {
        if self.selected == 0 {
            self.selected = 1;
        } else if self.selected >= self.loops.len() {
            self.selected = 0;
        } else {
            self.selected = self.selected + 1;
        }
    }

    /// Move the cursor up, wrapping from the tempo to the last loop.
    pub fn select_priv(&mut self)
        requires
            old(self).wf(),
        ensures
            final(self).wf(),
            *final(self) == (SetUpState { selected: final(self).selected, ..*old(self) }),
            final(self).selected == if old(self).selected == 0 {
                old(self).loops.len() as int
            } else {
                old(self).selected - 1
            },
    {
        if self.selected == 0 {
            self.selected = self.loops.len();
        } else {
            self.selected = self.selected - 1;
        }
    }

    /// Toggle whether the selected loop starts by itself; nothing happens
    /// on the tempo row.
    pub fn toggle_autostart(&mut self)
        requires
            old(self).wf(),
        ensures
            final(self).wf(),
            old(self).selected == 0 ==> *final(self) == *old(self),
            old(self).selected != 0 ==> *final(self) == (SetUpState {
                loops: final(self).loops,
                ..*old(self)
            }) && final(self).loops@ == old(self).loops@.update(
                old(self).selected - 1,
                LoopState {
                    starting: !old(self).loops@[old(self).selected - 1].starting,
                    ..old(self).loops@[old(self).selected - 1]
                },
            ),
    {
        if self.selected == 0 {
            return ;
        }
        let i = self.selected - 1;
        let mut l = self.loops[i];
        l.starting = !l.starting;
        self.loops.set(i, l);
    }

    /// Toggle layering of the selected loop; nothing happens on the tempo
    /// row.
    pub fn toggle_layering(&mut self)
        requires
            old(self).wf(),
        ensures
            final(self).wf(),
            old(self).selected == 0 ==> *final(self) == *old(self),
            old(self).selected != 0 ==> *final(self) == (SetUpState {
                loops: final(self).loops,
                ..*old(self)
            }) && final(self).loops@ == old(self).loops@.update(
                old(self).selected - 1,
                LoopState {
                    layering: !old(self).loops@[old(self).selected - 1].layering,
                    ..old(self).loops@[old(self).selected - 1]
                },
            ),
    {
        if self.selected == 0 {
            return ;
        }
        let i = self.selected - 1;
        let mut l = self.loops[i];
        l.layering = !l.layering;
        self.loops.set(i, l);
    }

    /// Decide on one key press.  The quit key sets `exit`, the arrows
    /// move the cursor or adjust values, tab cycles precision or toggles
    /// autostart, space finishes the setup.
    pub fn handle_key_event(&mut self, key: UiKey)
        requires
            old(self).wf(),
            key != UiKey::Char('p'),
        ensures
            final(self).wf(),
            key == UiKey::Char('q') ==> *final(self) == (SetUpState { exit: true, ..*old(self) }),
            key == UiKey::Char(' ') ==> *final(self) == (SetUpState {
                next_phase: true,
                ..*old(self)
            }),
            final(self).exit == (old(self).exit || key == UiKey::Char('q')),
            final(self).next_phase == (old(self).next_phase || key == UiKey::Char(' ')),
            final(self).mbpm >= 1000,
    {
        match key {
            UiKey::Char(c) => {
                if c == 'q' {
                    self.exit = true;
                } else if c == ' ' {
                    self.next_phase = true;
                } else if c == 'a' {
                    self.add_loop();
                } else if c == 'l' {
                    self.toggle_layering();
                }
            },
            UiKey::Left => self.decrement(),
            UiKey::Right => self.increment(),
            UiKey::Up => self.select_priv(),
            UiKey::Down => self.select_next(),
            UiKey::Tab => {
                if self.selected == 0 {
                    self.change_precision();
                } else {
                    self.toggle_autostart();
                }
            },
            _ => {},
        }
    }
}

} // verus!
