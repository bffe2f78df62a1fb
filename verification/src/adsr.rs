//! Piecewise-linear attack/decay/sustain/release envelope.
//!
//! Durations are fixed-point seconds ([`TIME_UNIT`] is one second), levels
//! are fixed-point amplitudes in `[0, UNIT]`.  `forward` integrates
//! elapsed time; overshoot within one call carries into the next phase.

use vstd::prelude::*;

verus! {

use crate::fixed::{UNIT, TIME_UNIT};

/// Longest supported envelope segment: one hour.
pub const MAX_ADSR_TIME: i64 = 3_600_000_000_000;

#[derive(Clone, Copy, PartialEq, Eq, Structural)]
pub enum ADSRPhase {
    A,
    D,
    S,
    R,
    End,
}

#[derive(Clone, Copy)]
pub struct ADSR {
    /// Attack length: the level ramps 0 to `UNIT` over this time.
    pub attack: i64,
    /// Decay length: the level ramps `UNIT` to `sustain_level` over it.
    pub decay: i64,
    /// Level held during sustain, in `[0, UNIT]`.
    pub sustain_level: i64,
    /// Release length: the level ramps `sustain_level` to 0 over it.
    pub release: i64,
    /// Time spent in the current phase.
    pub pos: i64,
    pub phase: ADSRPhase,
    /// Most recently computed level.
    pub level: i64,
}

impl ADSR {
    pub open spec fn wf(self) -> bool {
        &&& 0 <= self.attack <= MAX_ADSR_TIME
        &&& 0 <= self.decay <= MAX_ADSR_TIME
        &&& 0 <= self.release <= MAX_ADSR_TIME
        &&& 0 <= self.sustain_level <= UNIT
        &&& 0 <= self.pos <= MAX_ADSR_TIME
        &&& 0 <= self.level <= UNIT
        &&& self.phase == ADSRPhase::A ==> self.pos <= self.attack
        &&& self.phase == ADSRPhase::D ==> self.pos <= self.decay
        &&& self.phase == ADSRPhase::S ==> self.level == self.sustain_level
        &&& self.phase == ADSRPhase::R ==> self.pos <= self.release && self.level
            <= self.sustain_level
        &&& self.phase == ADSRPhase::End ==> self.level == 0
    }

    /// The phase is past sustain: from here the level stays at or below
    /// the sustain level forever.
    pub open spec fn spec_releasing(self) -> bool {
        self.phase == ADSRPhase::R || self.phase == ADSRPhase::End
    }

    /// The envelope after [`ADSR::reset`].
    pub open spec fn spec_reset(s: ADSR) -> ADSR {
        ADSR { phase: ADSRPhase::A, pos: 0, level: 0, ..s }
    }

    /// The envelope after [`ADSR::release`].
    pub open spec fn spec_release(s: ADSR) -> ADSR {
        if s.phase != ADSRPhase::S {
            s
        } else if s.release == 0 {
            ADSR { phase: ADSRPhase::End, level: 0, ..s }
        } else {
            ADSR { phase: ADSRPhase::R, level: s.sustain_level, pos: 0, ..s }
        }
    }

    /// One `forward` step as a mathematical function: integrate `time`
    /// into the current phase, ramp the level linearly, and carry any
    /// overshoot into the next phase within the same step.
    pub open spec fn spec_forward(s: ADSR, time: int) -> ADSR
        decreases (match s.phase {
            ADSRPhase::A => 1int,
            _ => 0int,
        }),
    {
        if time <= 0 {
            s
        } else {
            match s.phase {
                ADSRPhase::A => {
                    let p = s.pos + time;
                    if p >= s.attack {
                        let carry = if p - s.attack < MAX_ADSR_TIME {
                            p - s.attack
                        } else {
                            MAX_ADSR_TIME as int
                        };
                        Self::spec_forward(
                            ADSR { phase: ADSRPhase::D, level: UNIT, pos: 0, ..s },
                            carry,
                        )
                    } else {
                        ADSR {
                            pos: p as i64,
                            level: (p * UNIT / (s.attack as int)) as i64,
                            ..s
                        }
                    }
                },
                ADSRPhase::D => {
                    let p = s.pos + time;
                    if p >= s.decay {
                        ADSR { phase: ADSRPhase::S, pos: 0, level: s.sustain_level, ..s }
                    } else {
                        ADSR {
                            pos: p as i64,
                            level: (UNIT - p * (UNIT - s.sustain_level) / (s.decay as int)) as i64,
                            ..s
                        }
                    }
                },
                ADSRPhase::S => ADSR { level: s.sustain_level, ..s },
                ADSRPhase::R => {
                    let p = s.pos + time;
                    if p >= s.release {
                        ADSR { phase: ADSRPhase::End, level: 0, ..s }
                    } else {
                        ADSR {
                            pos: p as i64,
                            level: (s.sustain_level - p * (s.sustain_level as int) / (
                            s.release as int)) as i64,
                            ..s
                        }
                    }
                },
                ADSRPhase::End => s,
            }
        }
    }

    pub fn new(attack: i64, decay: i64, sustain: i64, release: i64) -> (a: ADSR)
        requires
            0 <= attack <= MAX_ADSR_TIME,
            0 <= decay <= MAX_ADSR_TIME,
            0 <= sustain <= UNIT,
            0 <= release <= MAX_ADSR_TIME,
        ensures
            a.wf(),
            a.attack == attack,
            a.decay == decay,
            a.sustain_level == sustain,
            a.release == release,
            a.phase == ADSRPhase::A,
            a.pos == 0,
            a.level == 0,
    {
        ADSR { attack, decay, sustain_level: sustain, release, phase: ADSRPhase::A, pos: 0, level: 0 }
    }

    /// Restart the envelope from the beginning of the attack.
    pub fn reset(&mut self)
        requires
            old(self).wf(),
        ensures
            final(self).wf(),
            *final(self) == Self::spec_reset(*old(self)),
    {
        self.phase = ADSRPhase::A;
        self.pos = 0;
        self.level = 0;
    }

    /// The most recently computed level.
    pub fn level(&self) -> (l: i64)
        ensures
            l == self.level,
    {
        self.level
    }

    /// Leave sustain for the release ramp; a no-op in any other phase.
    /// With a zero release time the envelope ends at once.
    pub fn release(&mut self)
        requires
            old(self).wf(),
        ensures
            final(self).wf(),
            *final(self) == Self::spec_release(*old(self)),
            old(self).phase != ADSRPhase::S ==> *final(self) == *old(self),
            old(self).phase == ADSRPhase::S ==> final(self).spec_releasing() && final(self).level
                <= final(self).sustain_level,
    {
        if self.phase != ADSRPhase::S {
            return ;
        }
        if self.release == 0 {
            self.phase = ADSRPhase::End;
            self.level = 0;
            return ;
        }
        self.phase = ADSRPhase::R;
        self.level = self.sustain_level;
        self.pos = 0;
    }

    /// Advance the envelope by `time` and return the new level.
    ///
    /// The returned level always lies in `[0, UNIT]`; once the envelope is
    /// releasing it never rises above the sustain level again.
    pub fn forward(&mut self, time: i64) -> (level: i64)
        requires
            old(self).wf(),
            0 <= time <= MAX_ADSR_TIME,
        ensures
            final(self).wf(),
            *final(self) == Self::spec_forward(*old(self), time as int),
            level == final(self).level,
            0 <= level <= UNIT,
            final(self).attack == old(self).attack,
            final(self).decay == old(self).decay,
            final(self).sustain_level == old(self).sustain_level,
            final(self).release == old(self).release,
            old(self).spec_releasing() ==> final(self).spec_releasing() && level <= old(
                self,
            ).sustain_level,
            time == 0 ==> *final(self) == *old(self),
        decreases (match old(self).phase {
            ADSRPhase::A => 1int,
            _ => 0int,
        }),
    {
        if time == 0 {
            return self.level();
        }
        match self.phase {
            ADSRPhase::A => {
                let p = self.pos + time;
                if p >= self.attack {
                    self.phase = ADSRPhase::D;
                    let carry = if p - self.attack < MAX_ADSR_TIME {
                        p - self.attack
                    } else {
                        MAX_ADSR_TIME
                    };
                    self.level = UNIT;
                    self.pos = 0;
                    self.forward(carry)
                } else {
                    self.pos = p;
                    proof {
                        assert(0 <= (p as int) * (UNIT as int) / (self.attack as int) <= UNIT)
                            by (nonlinear_arith)
                            requires
                                0 <= p < self.attack,
                        ;
                    }
                    self.level = (p * UNIT) / self.attack;
                    self.level
                }
            },
            ADSRPhase::D => {
                let p = self.pos + time;
                if p >= self.decay {
                    self.phase = ADSRPhase::S;
                    self.pos = 0;
                    self.level = self.sustain_level;
                    return self.level;
                }
                self.pos = p;
                proof {
                    assert(0 <= (p as int) * ((UNIT - self.sustain_level) as int)
                        <= MAX_ADSR_TIME * UNIT) by (nonlinear_arith)
                        requires
                            0 <= p <= MAX_ADSR_TIME,
                            0 <= self.sustain_level <= UNIT,
                    ;
                    assert(0 <= (p as int) * ((UNIT - self.sustain_level) as int) / (
                    self.decay as int) <= UNIT - self.sustain_level) by (nonlinear_arith)
                        requires
                            0 <= p < self.decay,
                            0 <= self.sustain_level <= UNIT,
                    ;
                }
                self.level = UNIT - (p * (UNIT - self.sustain_level)) / self.decay;
                self.level
            },
            ADSRPhase::S => {
                self.level = self.sustain_level;
                self.level
            },
            ADSRPhase::R => {
                let p = self.pos + time;
                if p >= self.release {
                    self.phase = ADSRPhase::End;
                    self.level = 0;
                    return 0;
                }
                self.pos = p;
                proof {
                    assert(0 <= (p as int) * (self.sustain_level as int) <= MAX_ADSR_TIME * UNIT)
                        by (nonlinear_arith)
                        requires
                            0 <= p <= MAX_ADSR_TIME,
                            0 <= self.sustain_level <= UNIT,
                    ;
                    assert(0 <= (p as int) * (self.sustain_level as int) / (self.release as int)
                        <= self.sustain_level) by (nonlinear_arith)
                        requires
                            0 <= p < self.release,
                            0 <= self.sustain_level,
                    ;
                }
                self.level = self.sustain_level - (p * self.sustain_level) / self.release;
                self.level
            },
            ADSRPhase::End => 0,
        }
    }
}

impl Default for ADSR {
    /// A general-purpose click envelope: 10 ms attack, 100 ms decay,
    /// 0.8 sustain, 100 ms release.
    fn default() -> (a: ADSR)
        ensures
            a.wf(),
            a.attack == 10_000_000,
            a.decay == 100_000_000,
            a.sustain_level == 800_000,
            a.release == 100_000_000,
            a.phase == ADSRPhase::A,
            a.pos == 0,
            a.level == 0,
    {
        ADSR::new(10_000_000, 100_000_000, 800_000, 100_000_000)
    }
}

} // verus!
