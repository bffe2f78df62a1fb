//! The sample-accurate audio engine behind the process callback.
//!
//! One engine value owns the transport clock, the count-in state machine,
//! the metronome, the monitoring chain and the loop slots.  The host
//! callback hands it a block of input samples and a snapshot of the
//! control plane; it fills the output block and reports what it published.
//! Every per-sample step is pinned down by [`spec_sample_rel`].

use vstd::prelude::*;

verus! {

use crate::adsr::ADSR;
use crate::delay::Delay;
use crate::distortion::Distortion;
use crate::fixed::{UNIT, TIME_UNIT, AMP_LIMIT, scale, clamp_amp, spec_scale, spec_clamp_amp,
    spec_sin_turns};
use crate::oscillator::Oscillator;
use crate::slot::{LoopSlot, boundary_fires, spec_boundary_fires};
use vstd::arithmetic::div_mod::{
    lemma_fundamental_div_mod,
    lemma_fundamental_div_mod_converse,
    lemma_mod_division_less_than_divisor,
    lemma_div_is_ordered,
};

/// Number of loop slots.
pub const SLOT_COUNT: usize = 8;

/// High metronome click: C5, in milli-hertz.
pub const CLICK_HI_MILLIHZ: i64 = 523_250;

/// Low metronome click: C4, in milli-hertz.
pub const CLICK_LO_MILLIHZ: i64 = 261_625;

/// Click used while neither counting in nor rolling: A4.
pub const CLICK_IDLE_MILLIHZ: i64 = 440_000;

/// Click volumes per phase, in fixed point.
pub const CLICK_VOL_ROLLING: i64 = 50_000;

pub const CLICK_VOL_COUNTIN: i64 = 400_000;

pub const CLICK_VOL_IDLE: i64 = 200_000;

/// Tempo bounds in milli-BPM.
pub const MIN_MBPM: u32 = 1_000;

pub const MAX_MBPM: u32 = 3_000_000;

/// Sample-rate bounds the engine supports.
pub const MIN_SAMPLE_RATE: i64 = 1_000;

/// The control-plane values the engine reads, snapshotted per block.
pub struct ControlIn {
    /// Master gate: false silences the engine completely.
    pub enabled: bool,
    /// Edge-triggered request to start a count-in at the next beat.
    pub countin: bool,
    /// Number of count-in beats of the request.
    pub countin_length: u32,
    /// Tempo in milli-BPM.
    pub mbpm: u32,
    /// Per-slot target loop length in beats (0 disables the slot).
    pub loop_length: Vec<u32>,
    /// Per-slot request to arm the slot at its next snapped boundary.
    pub loop_starting: Vec<bool>,
}

impl ControlIn {
    pub open spec fn wf(self) -> bool {
        &&& self.loop_length.len() == SLOT_COUNT
        &&& self.loop_starting.len() == SLOT_COUNT
        &&& MIN_MBPM <= self.mbpm <= MAX_MBPM
    }
}

/// What one sample publishes back to the control plane.
pub struct SampleOut {
    /// The produced output sample.
    pub out_sample: i64,
    /// One rolling-started event must be enqueued.
    pub rolling_event: bool,
    /// The engine consumed the count-in request; the control-plane flag
    /// must be cleared.
    pub countin_consumed: bool,
    /// The transport position to publish: beat * 1000 + millis.
    pub millibeat: u32,
}

/// The scalar transport state a beat crossing computes: clock, beat
/// counters, count-in machine, click choice, and what is published.
pub struct BeatScalars {
    pub audio_clock: u64,
    pub current_beat: u32,
    pub countin_started: bool,
    pub countin_left: u32,
    pub rolling: bool,
    pub countin_local: bool,
    pub click_freq_millihz: i64,
    pub click_vol: i64,
    pub rolling_event: bool,
    pub countin_consumed: bool,
}

/// Milliseconds per beat at a tempo: `60_000_000 / mbpm` truncated.
pub open spec fn spec_mspb(mbpm: u32) -> int {
    60_000_000int / (mbpm as int)
}

/// Samples per beat: `sample_rate * mspb / 1000` truncated.
pub open spec fn spec_spb(sample_rate: i64, mbpm: u32) -> int {
    (sample_rate as int) * spec_mspb(mbpm) / 1000
}

/// Position within the current beat in millionths: `(clock mod spb) / spb`
/// scaled by `UNIT`.
pub open spec fn spec_beat_pos(clock: u64, spb: int) -> int {
    ((clock as int) % spb) * UNIT / spb
}

/// Whether sample `c` of a freshly enabled engine crosses a beat: the
/// very first sample always does (the remembered previous position
/// starts just under a full beat), later samples exactly when the clock
/// wraps around a beat.
pub open spec fn spec_fresh_crossing(c: int, spb: int) -> bool {
    if c <= 0 {
        true
    } else {
        spec_beat_pos(c as u64, spb) < spec_beat_pos((c - 1) as u64, spb)
    }
}

/// Beat crossings among the first `n` samples of a freshly enabled
/// engine running at a fixed tempo.
pub open spec fn spec_crossing_count(n: int, spb: int) -> int
    decreases n,
{
    if n <= 0 {
        0
    } else {
        spec_crossing_count(n - 1, spb) + if spec_fresh_crossing(n - 1, spb) {
            1int
        } else {
            0int
        }
    }
}

/// A clock step crosses a beat exactly when the clock lands on a
/// multiple of the samples-per-beat.
pub proof fn lemma_crossing_characterization(c: int, spb: int)
    requires
        1 <= c < 0x8000_0000_0000_0000,
        2 <= spb,
    ensures
        spec_fresh_crossing(c, spb) <==> c % spb == 0,
{
    lemma_fundamental_div_mod(c, spb);
    lemma_mod_division_less_than_divisor(c, spb);
    let q = c / spb;
    let r = c % spb;
    if r == 0 {
        // The previous sample sat at the very end of the beat.
        assert(c - 1 == (q - 1) * spb + (spb - 1)) by (nonlinear_arith)
            requires
                c == spb * q + r,
                r == 0,
                spb >= 1,
        ;
        lemma_fundamental_div_mod_converse(c - 1, spb, q - 1, spb - 1);
        assert(spec_beat_pos(c as u64, spb) == 0) by (nonlinear_arith)
            requires
                (c as u64) as int % spb == 0,
                spb >= 2,
        ;
        assert((spb - 1) * UNIT / spb >= 1) by (nonlinear_arith)
            requires
                2 <= spb,
        ;
    } else {
        // Within a beat the position only grows.
        assert(c - 1 == q * spb + (r - 1)) by (nonlinear_arith)
            requires
                c == spb * q + r,
        ;
        lemma_fundamental_div_mod_converse(c - 1, spb, q, r - 1);
        lemma_div_is_ordered((r - 1) * UNIT, r * UNIT, spb);
    }
}

/// The number of beat crossings in the first `n` samples after a fresh
/// enable: the immediate first-sample crossing plus one per whole beat
/// the clock completes.
pub proof fn lemma_transport_crossing_count(n: int, spb: int)
    requires
        1 <= n <= 0x8000_0000_0000_0000,
        2 <= spb,
    ensures
        spec_crossing_count(n, spb) == 1 + (n - 1) / spb,
    decreases n,
{
    if n == 1 {
        assert(spec_crossing_count(0, spb) == 0);
        assert(spec_crossing_count(1, spb) == 1);
        assert(0int / spb == 0) by (nonlinear_arith)
            requires
                spb >= 1,
        ;
    } else {
        lemma_transport_crossing_count(n - 1, spb);
        lemma_crossing_characterization(n - 1, spb);
        lemma_fundamental_div_mod(n - 1, spb);
        lemma_mod_division_less_than_divisor(n - 1, spb);
        let q = (n - 1) / spb;
        let r = (n - 1) % spb;
        if r == 0 {
            assert(n - 2 == (q - 1) * spb + (spb - 1)) by (nonlinear_arith)
                requires
                    n - 1 == spb * q + r,
                    r == 0,
                    spb >= 1,
            ;
            lemma_fundamental_div_mod_converse(n - 2, spb, q - 1, spb - 1);
        } else {
            assert(n - 2 == q * spb + (r - 1)) by (nonlinear_arith)
                requires
                    n - 1 == spb * q + r,
            ;
            lemma_fundamental_div_mod_converse(n - 2, spb, q, r - 1);
        }
    }
}

/// The scalar outcome of a sample that does not cross a beat: everything
/// keeps its value and nothing is published.
pub open spec fn spec_no_crossing(e: AudioEngine, local: bool) -> BeatScalars {
    BeatScalars {
        audio_clock: e.audio_clock,
        current_beat: e.current_beat,
        countin_started: e.countin_started,
        countin_left: e.countin_left,
        rolling: e.rolling,
        countin_local: local,
        click_freq_millihz: e.click_osc.freq_millihz,
        click_vol: e.click_vol,
        rolling_event: false,
        countin_consumed: false,
    }
}

/// The scalar outcome of a beat crossing: a pending count-in request
/// resets the clock and arms the count-in; the beat counter advances; the
/// count-in machine picks the click and fires the one rolling event.
pub open spec fn spec_crossing(e: AudioEngine, local: bool, countin_length: u32) -> BeatScalars {
    let starting_countin = !e.countin_started && local;
    let clock1: u64 = if starting_countin {
        0u64
    } else {
        e.audio_clock
    };
    let beat1: u32 = if starting_countin {
        0u32
    } else {
        e.current_beat
    };
    let started1 = starting_countin || e.countin_started;
    let left1: u32 = if starting_countin {
        countin_length
    } else {
        e.countin_left
    };
    let local1 = if starting_countin {
        false
    } else {
        local
    };
    let beat2: u32 = if beat1 < 0xFFFF_FFFFu32 {
        (beat1 + 1) as u32
    } else {
        beat1
    };
    if started1 {
        if left1 == 0 {
            BeatScalars {
                audio_clock: clock1,
                current_beat: 1u32,
                countin_started: false,
                countin_left: 0u32,
                rolling: true,
                countin_local: local1,
                click_freq_millihz: CLICK_HI_MILLIHZ,
                click_vol: CLICK_VOL_ROLLING,
                rolling_event: true,
                countin_consumed: starting_countin,
            }
        } else {
            let left2: u32 = (left1 - 1) as u32;
            BeatScalars {
                audio_clock: clock1,
                current_beat: beat2,
                countin_started: true,
                countin_left: left2,
                rolling: e.rolling,
                countin_local: local1,
                click_freq_millihz: if left2 % 4 == 3 {
                    CLICK_HI_MILLIHZ
                } else {
                    CLICK_LO_MILLIHZ
                },
                click_vol: if e.rolling {
                    CLICK_VOL_ROLLING
                } else {
                    CLICK_VOL_COUNTIN
                },
                rolling_event: false,
                countin_consumed: starting_countin,
            }
        }
    } else if e.rolling {
        BeatScalars {
            audio_clock: clock1,
            current_beat: beat2,
            countin_started: false,
            countin_left: left1,
            rolling: true,
            countin_local: local1,
            click_freq_millihz: if beat2 % 4 == 1 {
                CLICK_HI_MILLIHZ
            } else {
                CLICK_LO_MILLIHZ
            },
            click_vol: CLICK_VOL_ROLLING,
            rolling_event: false,
            countin_consumed: false,
        }
    } else {
        BeatScalars {
            audio_clock: clock1,
            current_beat: beat2,
            countin_started: false,
            countin_left: left1,
            rolling: false,
            countin_local: local1,
            click_freq_millihz: CLICK_IDLE_MILLIHZ,
            click_vol: CLICK_VOL_IDLE,
            rolling_event: false,
            countin_consumed: false,
        }
    }
}

/// The slot boundary of slot `i` fires at this crossing.
pub open spec fn spec_slot_fired(
    e: AudioEngine,
    ctrl: ControlIn,
    crossing: bool,
    bs: BeatScalars,
    i: int,
) -> bool {
    crossing && bs.rolling && spec_boundary_fires(ctrl.loop_length@[i], bs.current_beat)
}

/// Slot `i` after the boundary handling of this sample (unchanged unless
/// its boundary fired).
pub open spec fn spec_slot_mid(
    e: AudioEngine,
    ctrl: ControlIn,
    crossing: bool,
    bs: BeatScalars,
    i: int,
) -> LoopSlot {
    if spec_slot_fired(e, ctrl, crossing, bs, i) {
        e.slots@[i].spec_after_boundary(ctrl.loop_length@[i], ctrl.loop_starting@[i],
            bs.current_beat)
    } else {
        e.slots@[i]
    }
}

/// What slot `i` adds to the output this sample: its playback delay's
/// response to the stored sample, or silence when it is not looping.
pub open spec fn spec_play_contrib(
    e: AudioEngine,
    ctrl: ControlIn,
    crossing: bool,
    bs: BeatScalars,
    i: int,
) -> int {
    let s1 = spec_slot_mid(e, ctrl, crossing, bs, i);
    if s1.looping {
        e.playback_delay@[i].spec_out(s1.buffer@[s1.pos as int] as int)
    } else {
        0
    }
}

/// The playback contributions of slots `0 .. n` summed.
pub open spec fn spec_play_sum(
    e: AudioEngine,
    ctrl: ControlIn,
    crossing: bool,
    bs: BeatScalars,
    n: int,
) -> int
    decreases n,
{
    if n <= 0 {
        0
    } else {
        spec_play_sum(e, ctrl, crossing, bs, n - 1) + spec_play_contrib(e, ctrl, crossing, bs, n - 1)
    }
}

pub struct AudioEngine {
    /// Sample rate in hertz, fixed at activation.
    pub sample_rate: i64,
    /// Monotonic sample counter; reset when a count-in begins or the
    /// engine is re-enabled.
    pub audio_clock: u64,
    /// Whether the previous block ran enabled.
    pub last_enabled: bool,
    /// A count-in is in progress.
    pub countin_started: bool,
    /// Count-in beats left.
    pub countin_left: u32,
    /// The transport is past its count-in.
    pub rolling: bool,
    /// Beat counter: 0 during count-in, 1 at the first rolling beat.
    pub current_beat: u32,
    /// Beat position of the previous sample, in millionths of a beat.
    pub last_beat_pos: i64,
    /// Metronome envelope.
    pub adsr: ADSR,
    /// Metronome volume for the current beat.
    pub click_vol: i64,
    /// Metronome oscillator.
    pub click_osc: Oscillator,
    /// Delay on the monitored live input.
    pub monitor_delay: Delay,
    /// Distortion on the monitored live input and on captures.
    pub distortion: Distortion,
    /// The loop slots.
    pub slots: Vec<LoopSlot>,
    /// One playback delay per slot.
    pub playback_delay: Vec<Delay>,
}

impl AudioEngine {
    pub open spec fn wf(self) -> bool {
        &&& MIN_SAMPLE_RATE <= self.sample_rate <= crate::oscillator::MAX_SAMPLE_RATE
        &&& self.adsr.wf()
        &&& self.click_osc.wf()
        &&& self.click_osc.sample_rate == self.sample_rate
        &&& 0 <= self.click_vol <= UNIT
        &&& 0 <= self.last_beat_pos < UNIT
        &&& self.monitor_delay.wf()
        &&& self.distortion.wf()
        &&& self.slots.len() == SLOT_COUNT
        &&& self.playback_delay.len() == SLOT_COUNT
        &&& forall|i: int| 0 <= i < SLOT_COUNT ==> (#[trigger] self.slots@[i]).wf()
        &&& forall|i: int| 0 <= i < SLOT_COUNT ==> (#[trigger] self.playback_delay@[i]).wf()
    }

    /// How one enabled sample relates the engine state before (`pre`) and
    /// after (`post`): the transport scalars follow the crossing machine,
    /// the metronome envelope and oscillator step once, the monitor delay
    /// steps on the distorted input, every fired slot takes its boundary
    /// transition, looping slots play and advance, capturing slots record
    /// and advance, and the output is the sum of all three voices.
    pub open spec fn spec_sample_rel(
        pre: AudioEngine,
        post: AudioEngine,
        pre_local: bool,
        post_local: bool,
        ctrl: ControlIn,
        x: int,
        spb: int,
        so: SampleOut,
    ) -> bool {
        let pos = spec_beat_pos(pre.audio_clock, spb);
        let crossing = pos < pre.last_beat_pos;
        let bs = if crossing {
            spec_crossing(pre, pre_local, ctrl.countin_length)
        } else {
            spec_no_crossing(pre, pre_local)
        };
        let temp = spec_clamp_amp(pre.distortion.spec_process(x));
        let a1 = if crossing {
            ADSR::spec_reset(pre.adsr)
        } else {
            pre.adsr
        };
        let a2 = if pos > 250_000 {
            ADSR::spec_release(a1)
        } else {
            a1
        };
        let o1 = if crossing {
            pre.click_osc.spec_after_set_freq(bs.click_freq_millihz)
        } else {
            pre.click_osc
        };
        let env = post.adsr.level as int;
        let wave = spec_scale(spec_sin_turns(o1.spec_next_phase()), bs.click_vol as int);
        let amp = spec_scale(wave, env);
        &&& post.sample_rate == pre.sample_rate
        &&& post.last_enabled == pre.last_enabled
        &&& post.countin_started == bs.countin_started
        &&& post.countin_left == bs.countin_left
        &&& post.rolling == bs.rolling
        &&& post.current_beat == bs.current_beat
        &&& post.click_vol == bs.click_vol
        &&& post_local == bs.countin_local
        &&& so.rolling_event == bs.rolling_event
        &&& so.countin_consumed == bs.countin_consumed
        &&& post.audio_clock == if bs.audio_clock < 0xFFFF_FFFF_FFFF_FFFFu64 {
            bs.audio_clock + 1
        } else {
            bs.audio_clock as int
        }
        &&& post.last_beat_pos == pos
        &&& post.adsr == ADSR::spec_forward(a2, TIME_UNIT as int / (pre.sample_rate as int))
        &&& post.click_osc == (Oscillator { phase: o1.spec_next_phase() as i64, ..o1 })
        &&& post.distortion == pre.distortion
        &&& Delay::spec_stepped(pre.monitor_delay, post.monitor_delay, temp)
        &&& post.slots.len() == SLOT_COUNT
        &&& post.playback_delay.len() == SLOT_COUNT
        &&& forall|i: int|
            0 <= i < SLOT_COUNT ==> {
                let s1 = spec_slot_mid(pre, ctrl, crossing, bs, i);
                let active = s1.looping || s1.capturing;
                &&& (#[trigger] post.slots@[i]).filled == s1.filled
                &&& post.slots@[i].looping == s1.looping
                &&& post.slots@[i].capturing == s1.capturing
                &&& post.slots@[i].record_start_beat == s1.record_start_beat
                &&& post.slots@[i].buffer@ == if s1.capturing {
                    s1.buffer@.update(s1.pos as int, temp as i64)
                } else {
                    s1.buffer@
                }
                &&& post.slots@[i].pos == if active && s1.pos + 1 < s1.buffer.len() {
                    s1.pos + 1
                } else {
                    s1.pos as int
                }
                &&& if s1.looping {
                    Delay::spec_stepped(
                        pre.playback_delay@[i],
                        post.playback_delay@[i],
                        s1.buffer@[s1.pos as int] as int,
                    )
                } else {
                    post.playback_delay@[i] == pre.playback_delay@[i]
                }
            }
        &&& so.out_sample == pre.monitor_delay.spec_out(temp) + amp + spec_play_sum(
            pre,
            ctrl,
            crossing,
            bs,
            SLOT_COUNT as int,
        )
        &&& so.millibeat == (bs.current_beat * 1000 + pos / 1000) % 0x1_0000_0000
    }

    /// A freshly activated engine: disabled, clock at zero, metronome at
    /// the low click, a quarter-second monitor delay behind a drive-8
    /// distortion, and eight idle slots able to hold 33 seconds of audio
    /// at double rate.
    pub fn new(sample_rate: i64) -> (e: AudioEngine)
        requires
            MIN_SAMPLE_RATE <= sample_rate <= crate::oscillator::MAX_SAMPLE_RATE,
        ensures
            e.wf(),
            e.sample_rate == sample_rate,
            e.audio_clock == 0,
            !e.last_enabled,
            !e.countin_started,
            !e.rolling,
            e.countin_left == 0,
            e.current_beat == 0,
            e.last_beat_pos == 999_000,
            e.click_vol == CLICK_VOL_IDLE,
            e.click_osc.freq_millihz == CLICK_LO_MILLIHZ,
            e.click_osc.phase == 0,
            e.monitor_delay.feedback == 400_000 && e.monitor_delay.wet == 800_000,
            e.monitor_delay.line.len() == sample_rate / 4,
            forall|i: int|
                0 <= i < e.monitor_delay.line.len() ==> #[trigger] e.monitor_delay.line@[i] == 0,
            e.distortion.drive == 8 * UNIT && e.distortion.mix == 500_000,
            forall|i: int|
                0 <= i < SLOT_COUNT ==> !(#[trigger] e.slots@[i]).filled && !e.slots@[i].looping
                    && !e.slots@[i].capturing && e.slots@[i].pos == 0,
            forall|i: int|
                0 <= i < SLOT_COUNT ==> (#[trigger] e.playback_delay@[i]).feedback == 400_000
                    && e.playback_delay@[i].wet == 800_000,
            forall|i: int|
                0 <= i < SLOT_COUNT ==> forall|j: int|
                    0 <= j < (#[trigger] e.playback_delay@[i]).line.len()
                        ==> #[trigger] e.playback_delay@[i].line@[j] == 0,
    {
        let delay_samples: usize = ((sample_rate * 250) / 1000) as usize;
        let monitor_delay = Delay::new(delay_samples, 400_000, 800_000);
        let slot_capacity: usize = (sample_rate * 2 * 33) as usize;
        let mut slots: Vec<LoopSlot> = Vec::new();
        let mut playback_delay: Vec<Delay> = Vec::new();
        while slots.len() < SLOT_COUNT
            invariant
                slots.len() <= SLOT_COUNT,
                slot_capacity >= 1,
                forall|i: int|
                    0 <= i < slots.len() ==> (#[trigger] slots@[i]).wf() && !slots@[i].filled && !slots@[i].looping
                        && !slots@[i].capturing && slots@[i].pos == 0,
            decreases SLOT_COUNT - slots.len(),
        {
            slots.push(LoopSlot::new(slot_capacity));
        }
        while playback_delay.len() < SLOT_COUNT
            invariant
                playback_delay.len() <= SLOT_COUNT,
                1 <= delay_samples <= crate::delay::MAX_DELAY_CAPACITY,
                forall|i: int|
                    0 <= i < playback_delay.len() ==> (#[trigger] playback_delay@[i]).wf()
                        && playback_delay@[i].feedback == 400_000 && playback_delay@[i].wet
                        == 800_000,
                forall|i: int|
                    0 <= i < playback_delay.len() ==> forall|j: int|
                        0 <= j < (#[trigger] playback_delay@[i]).line.len()
                            ==> #[trigger] playback_delay@[i].line@[j] == 0,
            decreases SLOT_COUNT - playback_delay.len(),
        {
            playback_delay.push(Delay::new(delay_samples, 400_000, 800_000));
        }
        AudioEngine {
            sample_rate,
            audio_clock: 0,
            last_enabled: false,
            countin_started: false,
            countin_left: 0,
            rolling: false,
            current_beat: 0,
            last_beat_pos: 999_000,
            adsr: ADSR::new(10_000_000, 100_000_000, 200_000, 20_000_000),
            click_vol: CLICK_VOL_IDLE,
            click_osc: Oscillator::new(CLICK_LO_MILLIHZ, sample_rate),
            monitor_delay,
            distortion: Distortion::new(8 * UNIT, 500_000),
            slots,
            playback_delay,
        }
    }
}

impl AudioEngine {
    /// Evaluate every slot's boundary rule at the current beat and apply
    /// the slot transitions of those that fire.  Touches nothing but the
    /// slots.
    fn run_boundaries(&mut self, ctrl: &ControlIn)
        requires
            old(self).wf(),
            ctrl.wf(),
        ensures
            final(self).wf(),
            *final(self) == (AudioEngine { slots: final(self).slots, ..*old(self) }),
            final(self).slots.len() == SLOT_COUNT,
            forall|j: int|
                0 <= j < SLOT_COUNT ==> final(self).slots@[j] == if spec_boundary_fires(
                    ctrl.loop_length@[j],
                    old(self).current_beat,
                ) {
                    old(self).slots@[j].spec_after_boundary(
                        ctrl.loop_length@[j],
                        ctrl.loop_starting@[j],
                        old(self).current_beat,
                    )
                } else {
                    old(self).slots@[j]
                },
    {
        let ghost entry = *old(self);
        let beat = self.current_beat;
        let mut i: usize = 0;
        while i < SLOT_COUNT
            invariant
                i <= SLOT_COUNT,
                ctrl.wf(),
                entry.slots.len() == SLOT_COUNT,
                beat == entry.current_beat,
                *self == (AudioEngine { slots: self.slots, ..entry }),
                self.slots.len() == SLOT_COUNT,
                forall|j: int| 0 <= j < SLOT_COUNT ==> (#[trigger] self.slots@[j]).wf(),
                forall|j: int|
                    i <= j < SLOT_COUNT ==> #[trigger] self.slots@[j] == entry.slots@[j],
                forall|j: int|
                    0 <= j < i ==> #[trigger] self.slots@[j] == if spec_boundary_fires(
                        ctrl.loop_length@[j],
                        entry.current_beat,
                    ) {
                        entry.slots@[j].spec_after_boundary(
                            ctrl.loop_length@[j],
                            ctrl.loop_starting@[j],
                            entry.current_beat,
                        )
                    } else {
                        entry.slots@[j]
                    },
            decreases SLOT_COUNT - i,
        {
            let length = ctrl.loop_length[i];
            if boundary_fires(length, beat) {
                let starting = ctrl.loop_starting[i];
                self.slots[i].on_boundary(length, starting, beat);
            }
            i = i + 1;
        }
    }

    /// Run the engine for one enabled sample: advance the transport,
    /// detect a beat crossing, drive the count-in and slot machines, and
    /// produce one output sample.
    #[verifier::rlimit(100)]
    pub fn process_sample(
        &mut self,
        ctrl: &ControlIn,
        countin_local: &mut bool,
        in_sample: i64,
        spb: u64,
    ) -> (so: SampleOut)
        requires
            old(self).wf(),
            ctrl.wf(),
            spb == spec_spb(old(self).sample_rate, ctrl.mbpm),
            20 <= spb <= 60_000_000,
            -AMP_LIMIT <= in_sample <= AMP_LIMIT,
        ensures
            final(self).wf(),
            Self::spec_sample_rel(
                *old(self),
                *final(self),
                *old(countin_local),
                *final(countin_local),
                *ctrl,
                in_sample as int,
                spb as int,
                so,
            ),
            final(self).sample_rate == old(self).sample_rate,
            -20 * AMP_LIMIT <= so.out_sample <= 20 * AMP_LIMIT,
    {
        let ghost pre = *old(self);
        let ghost pre_local = *old(countin_local);
        let rem: u64 = self.audio_clock % spb;
        proof {
            assert(rem * 1_000_000 < spb * 1_000_000) by (nonlinear_arith)
                requires
                    rem < spb,
            ;
            assert(forall|p: int| 0 <= p < (spb as int) * 1_000_000 ==> 0 <= #[trigger] (p / (
            spb as int)) < 1_000_000) by (nonlinear_arith)
                requires
                    spb >= 1,
            ;
        }
        let pos64: u64 = (rem * 1_000_000) / spb;
        let pos: i64 = pos64 as i64;
        let crossing = pos < self.last_beat_pos;
        let ghost bs = if crossing {
            spec_crossing(pre, pre_local, ctrl.countin_length)
        } else {
            spec_no_crossing(pre, pre_local)
        };
        let mut rolling_event = false;
        let mut countin_consumed = false;
        if crossing {
            if !self.countin_started && *countin_local {
                self.audio_clock = 0;
                self.current_beat = 0;
                self.countin_left = ctrl.countin_length;
                self.countin_started = true;
                *countin_local = false;
                countin_consumed = true;
            }
            if self.current_beat < 0xFFFF_FFFFu32 {
                self.current_beat = self.current_beat + 1;
            }
            self.adsr.reset();
            let click_freq: i64;
            if self.countin_started {
                if self.countin_left == 0 {
                    self.countin_started = false;
                    rolling_event = true;
                    self.rolling = true;
                    self.current_beat = 1;
                    click_freq = CLICK_HI_MILLIHZ;
                } else {
                    self.countin_left = self.countin_left - 1;
                    click_freq = if self.countin_left % 4 == 3 {
                        CLICK_HI_MILLIHZ
                    } else {
                        CLICK_LO_MILLIHZ
                    };
                }
            } else if self.rolling {
                click_freq = if self.current_beat % 4 == 1 {
                    CLICK_HI_MILLIHZ
                } else {
                    CLICK_LO_MILLIHZ
                };
            } else {
                click_freq = CLICK_IDLE_MILLIHZ;
            }
            self.click_osc.set_freq(click_freq);
            self.click_vol = if self.rolling {
                CLICK_VOL_ROLLING
            } else if self.countin_started {
                CLICK_VOL_COUNTIN
            } else {
                CLICK_VOL_IDLE
            };
            proof {
                assert(self.countin_started == bs.countin_started);
                assert(self.countin_left == bs.countin_left);
                assert(self.rolling == bs.rolling);
                assert(self.current_beat == bs.current_beat);
                assert(self.click_vol == bs.click_vol);
                assert(self.audio_clock == bs.audio_clock);
                assert(*countin_local == bs.countin_local);
                assert(click_freq == bs.click_freq_millihz);
            }
            if self.rolling {
                self.run_boundaries(ctrl);
            }
        }
        proof {
            assert(self.countin_started == bs.countin_started);
            assert(self.countin_left == bs.countin_left);
            assert(self.rolling == bs.rolling);
            assert(self.current_beat == bs.current_beat);
            assert(self.click_vol == bs.click_vol);
            assert(self.audio_clock == bs.audio_clock);
            assert(*countin_local == bs.countin_local);
            assert(rolling_event == bs.rolling_event);
            assert(countin_consumed == bs.countin_consumed);
            assert(forall|j: int|
                0 <= j < SLOT_COUNT ==> #[trigger] self.slots@[j] == spec_slot_mid(
                    pre,
                    *ctrl,
                    crossing,
                    bs,
                    j,
                ));
        }
        self.last_beat_pos = pos;
        // Monitoring: the live input through distortion and the monitor
        // delay is the base of the output sample.
        let temp = clamp_amp(self.distortion.process(in_sample));
        let base = self.monitor_delay.apply(temp);
        // Metronome: release the envelope a quarter beat in, advance it
        // by one sample, and add the scaled click.
        if pos > 250_000 {
            self.adsr.release();
        }
        let dt = TIME_UNIT / self.sample_rate;
        let env = self.adsr.forward(dt);
        let osc_out = self.click_osc.increment();
        let wave = scale(osc_out, self.click_vol);
        let amp = scale(wave, env);
        let mut out = base + amp;
        // Loop slots: play back, capture, advance.
        let ghost mid = *self;
        let mut i: usize = 0;
        while i < SLOT_COUNT
            invariant
                i <= SLOT_COUNT,
                ctrl.wf(),
                pre.wf(),
                pre.slots.len() == SLOT_COUNT,
                pre.playback_delay.len() == SLOT_COUNT,
                *self == (AudioEngine {
                    slots: self.slots,
                    playback_delay: self.playback_delay,
                    ..mid
                }),
                self.slots.len() == SLOT_COUNT,
                self.playback_delay.len() == SLOT_COUNT,
                -AMP_LIMIT <= temp <= AMP_LIMIT,
                forall|j: int|
                    i <= j < SLOT_COUNT ==> #[trigger] self.slots@[j] == spec_slot_mid(
                        pre,
                        *ctrl,
                        crossing,
                        bs,
                        j,
                    ),
                forall|j: int|
                    i <= j < SLOT_COUNT ==> #[trigger] self.playback_delay@[j]
                        == pre.playback_delay@[j],
                forall|j: int| 0 <= j < SLOT_COUNT ==> (#[trigger] self.slots@[j]).wf(),
                forall|j: int|
                    0 <= j < SLOT_COUNT ==> (#[trigger] self.playback_delay@[j]).wf(),
                forall|j: int|
                    0 <= j < i ==> {
                        let s1 = spec_slot_mid(pre, *ctrl, crossing, bs, j);
                        let active = s1.looping || s1.capturing;
                        &&& (#[trigger] self.slots@[j]).filled == s1.filled
                        &&& self.slots@[j].looping == s1.looping
                        &&& self.slots@[j].capturing == s1.capturing
                        &&& self.slots@[j].record_start_beat == s1.record_start_beat
                        &&& self.slots@[j].buffer@ == if s1.capturing {
                            s1.buffer@.update(s1.pos as int, temp as i64)
                        } else {
                            s1.buffer@
                        }
                        &&& self.slots@[j].pos == if active && s1.pos + 1 < s1.buffer.len() {
                            s1.pos + 1
                        } else {
                            s1.pos as int
                        }
                        &&& if s1.looping {
                            Delay::spec_stepped(
                                pre.playback_delay@[j],
                                self.playback_delay@[j],
                                s1.buffer@[s1.pos as int] as int,
                            )
                        } else {
                            self.playback_delay@[j] == pre.playback_delay@[j]
                        }
                    },
                out == pre.monitor_delay.spec_out(temp as int) + amp + spec_play_sum(
                    pre,
                    *ctrl,
                    crossing,
                    bs,
                    i as int,
                ),
                -2 * AMP_LIMIT - UNIT - (i as int) * 2 * AMP_LIMIT <= out <= 2 * AMP_LIMIT + UNIT
                    + (i as int) * 2 * AMP_LIMIT,
            decreases SLOT_COUNT - i,
        {
            let ghost body_pre = *self;
            if self.slots[i].looping {
                let dry = self.slots[i].play_sample();
                let wet = self.playback_delay[i].apply(dry);
                out = out + wet;
            }
            if self.slots[i].capturing {
                self.slots[i].capture_sample(temp);
            }
            self.slots[i].advance();
            proof {
                assert(forall|j: int|
                    0 <= j < SLOT_COUNT && j != i ==> #[trigger] self.slots@[j]
                        == body_pre.slots@[j]);
                assert(forall|j: int|
                    0 <= j < SLOT_COUNT && j != i ==> #[trigger] self.playback_delay@[j]
                        == body_pre.playback_delay@[j]);
                assert forall|j: int| 0 <= j < i implies {
                    let s1 = spec_slot_mid(pre, *ctrl, crossing, bs, j);
                    let active = s1.looping || s1.capturing;
                    &&& (#[trigger] self.slots@[j]).filled == s1.filled
                    &&& self.slots@[j].looping == s1.looping
                    &&& self.slots@[j].capturing == s1.capturing
                    &&& self.slots@[j].record_start_beat == s1.record_start_beat
                    &&& self.slots@[j].buffer@ == if s1.capturing {
                        s1.buffer@.update(s1.pos as int, temp as i64)
                    } else {
                        s1.buffer@
                    }
                    &&& self.slots@[j].pos == if active && s1.pos + 1 < s1.buffer.len() {
                        s1.pos + 1
                    } else {
                        s1.pos as int
                    }
                    &&& if s1.looping {
                        Delay::spec_stepped(
                            pre.playback_delay@[j],
                            self.playback_delay@[j],
                            s1.buffer@[s1.pos as int] as int,
                        )
                    } else {
                        self.playback_delay@[j] == pre.playback_delay@[j]
                    }
                } by {
                    assert(self.slots@[j] == body_pre.slots@[j]);
                    assert(self.playback_delay@[j] == body_pre.playback_delay@[j]);
                }
                let s1 = spec_slot_mid(pre, *ctrl, crossing, bs, i as int);
                let active = s1.looping || s1.capturing;
                assert(self.slots@[i as int].filled == s1.filled);
                assert(self.slots@[i as int].looping == s1.looping);
                assert(self.slots@[i as int].capturing == s1.capturing);
                assert(self.slots@[i as int].record_start_beat == s1.record_start_beat);
                assert(self.slots@[i as int].buffer@ == if s1.capturing {
                    s1.buffer@.update(s1.pos as int, temp as i64)
                } else {
                    s1.buffer@
                });
                assert(self.slots@[i as int].pos == if active && s1.pos + 1 < s1.buffer.len() {
                    s1.pos + 1
                } else {
                    s1.pos as int
                });
                assert(if s1.looping {
                    Delay::spec_stepped(
                        pre.playback_delay@[i as int],
                        self.playback_delay@[i as int],
                        s1.buffer@[s1.pos as int] as int,
                    )
                } else {
                    self.playback_delay@[i as int] == pre.playback_delay@[i as int]
                });
                assert forall|j: int| 0 <= j < i + 1 implies {
                    let s2 = spec_slot_mid(pre, *ctrl, crossing, bs, j);
                    let active2 = s2.looping || s2.capturing;
                    &&& (#[trigger] self.slots@[j]).filled == s2.filled
                    &&& self.slots@[j].looping == s2.looping
                    &&& self.slots@[j].capturing == s2.capturing
                    &&& self.slots@[j].record_start_beat == s2.record_start_beat
                    &&& self.slots@[j].buffer@ == if s2.capturing {
                        s2.buffer@.update(s2.pos as int, temp as i64)
                    } else {
                        s2.buffer@
                    }
                    &&& self.slots@[j].pos == if active2 && s2.pos + 1 < s2.buffer.len() {
                        s2.pos + 1
                    } else {
                        s2.pos as int
                    }
                    &&& if s2.looping {
                        Delay::spec_stepped(
                            pre.playback_delay@[j],
                            self.playback_delay@[j],
                            s2.buffer@[s2.pos as int] as int,
                        )
                    } else {
                        self.playback_delay@[j] == pre.playback_delay@[j]
                    }
                } by {
                    if j == i {
                        assert(spec_slot_mid(pre, *ctrl, crossing, bs, j) == s1);
                    }
                }
            }
            i = i + 1;
        }
        // Publish the transport position and advance the clock.
        let sub: u64 = pos64 / 1000;
        let mb: u64 = (self.current_beat as u64) * 1000 + sub;
        let millibeat: u32 = (mb % 0x1_0000_0000u64) as u32;
        if self.audio_clock < 0xFFFF_FFFF_FFFF_FFFFu64 {
            self.audio_clock = self.audio_clock + 1;
        }
        proof {
            let posg = spec_beat_pos(pre.audio_clock, spb as int);
            assert(posg == pos);
            let tempg = spec_clamp_amp(pre.distortion.spec_process(in_sample as int));
            assert(tempg == temp);
            let a1 = if crossing {
                ADSR::spec_reset(pre.adsr)
            } else {
                pre.adsr
            };
            let a2 = if posg > 250_000 {
                ADSR::spec_release(a1)
            } else {
                a1
            };
            let o1 = if crossing {
                pre.click_osc.spec_after_set_freq(bs.click_freq_millihz)
            } else {
                pre.click_osc
            };
            assert(self.sample_rate == pre.sample_rate);
            assert(self.last_enabled == pre.last_enabled);
            assert(self.countin_started == bs.countin_started);
            assert(self.countin_left == bs.countin_left);
            assert(self.rolling == bs.rolling);
            assert(self.current_beat == bs.current_beat);
            assert(self.click_vol == bs.click_vol);
            assert(*countin_local == bs.countin_local);
            assert(self.audio_clock == if bs.audio_clock < 0xFFFF_FFFF_FFFF_FFFFu64 {
                bs.audio_clock + 1
            } else {
                bs.audio_clock as int
            });
            assert(self.last_beat_pos == posg);
            assert(self.adsr == ADSR::spec_forward(a2, TIME_UNIT as int / (pre.sample_rate as int)));
            assert(self.click_osc == (Oscillator { phase: o1.spec_next_phase() as i64, ..o1 }));
            assert(self.distortion == pre.distortion);
            assert(Delay::spec_stepped(pre.monitor_delay, self.monitor_delay, tempg));
            assert(out == pre.monitor_delay.spec_out(tempg) + amp + spec_play_sum(
                pre,
                *ctrl,
                crossing,
                bs,
                SLOT_COUNT as int,
            ));
            assert(millibeat == (bs.current_beat * 1000 + posg / 1000) % 0x1_0000_0000);
        }
        SampleOut { out_sample: out, rolling_event, countin_consumed, millibeat }
    }
}

/// What one block reports back to the non-real-time side.
pub struct BlockOut {
    /// How many rolling-started events to enqueue (0 or 1 in practice).
    pub rolling_events: u32,
    /// The engine consumed the count-in request during this block.
    pub countin_consumed: bool,
    /// The last transport position published, if any sample ran.
    pub millibeat: Option<u32>,
}

/// Number of rolling-started events in a run of sample outputs.
pub open spec fn spec_event_count(outs: Seq<SampleOut>) -> int
    decreases outs.len(),
{
    if outs.len() == 0 {
        0
    } else {
        spec_event_count(outs.drop_last()) + if outs.last().rolling_event {
            1int
        } else {
            0int
        }
    }
}

impl AudioEngine {
    /// The engine state a block starts from: re-enabling resets the
    /// clock and the metronome frequency.
    pub open spec fn spec_block_start(e: AudioEngine) -> AudioEngine {
        if !e.last_enabled {
            AudioEngine {
                audio_clock: 0,
                click_osc: e.click_osc.spec_after_set_freq(CLICK_LO_MILLIHZ),
                last_enabled: true,
                ..e
            }
        } else {
            AudioEngine { last_enabled: true, ..e }
        }
    }

    /// Process one block of audio.
    ///
    /// Disabled, the engine writes silence and remembers it was off.
    /// Enabled, it runs [`AudioEngine::process_sample`] over the block;
    /// the returned ghost trace lists every intermediate engine state,
    /// count-in flag and sample output, chained by [`spec_sample_rel`],
    /// so the whole block is pinned down sample by sample.
    pub fn process_block(
        &mut self,
        ctrl: &ControlIn,
        input: &Vec<i64>,
        output: &mut Vec<i64>,
    ) -> (r: (BlockOut, Ghost<(Seq<AudioEngine>, Seq<bool>, Seq<SampleOut>)>))
        requires
            old(self).wf(),
            ctrl.wf(),
            old(output).len() == input.len(),
            input.len() <= 1_000_000,
            forall|i: int| 0 <= i < input.len() ==> -AMP_LIMIT <= #[trigger] input@[i] <= AMP_LIMIT,
        ensures
            final(self).wf(),
            final(self).sample_rate == old(self).sample_rate,
            final(output).len() == input.len(),
            !ctrl.enabled ==> {
                &&& forall|i: int| 0 <= i < input.len() ==> #[trigger] final(output)@[i] == 0
                &&& *final(self) == (AudioEngine { last_enabled: false, ..*old(self) })
                &&& r.0.rolling_events == 0
                &&& !r.0.countin_consumed
                &&& r.0.millibeat is None
            },
            ctrl.enabled ==> {
                let states = r.1@.0;
                let locals = r.1@.1;
                let outs = r.1@.2;
                &&& states.len() == input.len() + 1
                &&& locals.len() == input.len() + 1
                &&& outs.len() == input.len()
                &&& states[0] == Self::spec_block_start(*old(self))
                &&& locals[0] == ctrl.countin
                &&& states[input.len() as int] == *final(self)
                &&& forall|i: int|
                    0 <= i < input.len() ==> #[trigger] Self::spec_sample_rel(
                        states[i],
                        states[i + 1],
                        locals[i],
                        locals[i + 1],
                        *ctrl,
                        input@[i] as int,
                        spec_spb(old(self).sample_rate, ctrl.mbpm),
                        outs[i],
                    )
                &&& forall|i: int|
                    0 <= i < input.len() ==> #[trigger] final(output)@[i] == outs[i].out_sample
                &&& r.0.rolling_events == spec_event_count(outs)
                &&& (r.0.countin_consumed <==> exists|i: int|
                    0 <= i < outs.len() && (#[trigger] outs[i]).countin_consumed)
                &&& input.len() > 0 ==> r.0.millibeat == Some(outs[input.len() - 1].millibeat)
                &&& input.len() == 0 ==> r.0.millibeat is None
            },
    {
        let n = input.len();
        if !ctrl.enabled {
            let mut i: usize = 0;
            while i < n
                invariant
                    i <= n,
                    output.len() == n,
                    forall|j: int| 0 <= j < i ==> #[trigger] output@[j] == 0,
                decreases n - i,
            {
                output.set(i, 0);
                i = i + 1;
            }
            self.last_enabled = false;
            return (
                BlockOut { rolling_events: 0, countin_consumed: false, millibeat: None },
                Ghost((Seq::empty(), Seq::empty(), Seq::empty())),
            );
        }
        if !self.last_enabled {
            self.audio_clock = 0;
            self.click_osc.set_freq(CLICK_LO_MILLIHZ);
        }
        self.last_enabled = true;
        let ghost start = *self;
        let spb = samples_per_beat(self.sample_rate, ctrl.mbpm);
        let mut countin_local = ctrl.countin;
        let mut rolling_events: u32 = 0;
        let mut countin_consumed = false;
        let mut last_millibeat: u32 = 0;
        let ghost mut states: Seq<AudioEngine> = seq![start];
        let ghost mut locals: Seq<bool> = seq![ctrl.countin];
        let ghost mut outs: Seq<SampleOut> = Seq::empty();
        let mut i: usize = 0;
        while i < n
            invariant
                i <= n,
                n == input.len(),
                n <= 1_000_000,
                ctrl.wf(),
                ctrl.enabled,
                self.wf(),
                self.sample_rate == start.sample_rate,
                output.len() == n,
                spb == spec_spb(start.sample_rate, ctrl.mbpm),
                20 <= spb <= 60_000_000,
                forall|j: int| 0 <= j < n ==> -AMP_LIMIT <= #[trigger] input@[j] <= AMP_LIMIT,
                states.len() == i + 1,
                locals.len() == i + 1,
                outs.len() == i,
                states[0] == start,
                locals[0] == ctrl.countin,
                states[i as int] == *self,
                locals[i as int] == countin_local,
                forall|j: int|
                    0 <= j < i ==> #[trigger] Self::spec_sample_rel(
                        states[j],
                        states[j + 1],
                        locals[j],
                        locals[j + 1],
                        *ctrl,
                        input@[j] as int,
                        spb as int,
                        outs[j],
                    ),
                forall|j: int| 0 <= j < i ==> #[trigger] output@[j] == outs[j].out_sample,
                rolling_events == spec_event_count(outs),
                rolling_events <= i,
                (countin_consumed <==> exists|j: int|
                    0 <= j < outs.len() && (#[trigger] outs[j]).countin_consumed),
                i > 0 ==> last_millibeat == outs[i - 1].millibeat,
            decreases n - i,
        {
            let x = input[i];
            let so = self.process_sample(ctrl, &mut countin_local, x, spb);
            output.set(i, so.out_sample);
            if so.rolling_event {
                rolling_events = rolling_events + 1;
            }
            if so.countin_consumed {
                countin_consumed = true;
            }
            last_millibeat = so.millibeat;
            proof {
                let prev = outs;
                states = states.push(*self);
                locals = locals.push(countin_local);
                outs = outs.push(so);
                assert(outs.drop_last() =~= prev);
                assert(outs.last() == so);
            }
            i = i + 1;
        }
        let millibeat = if n > 0 {
            Some(last_millibeat)
        } else {
            None
        };
        proof {
            assert(states.len() == input.len() + 1);
            assert(locals.len() == input.len() + 1);
            assert(outs.len() == input.len());
            assert(states[0] == Self::spec_block_start(*old(self)));
            assert(locals[0] == ctrl.countin);
            assert(states[input.len() as int] == *self);
            assert(forall|j: int|
                0 <= j < input.len() ==> #[trigger] Self::spec_sample_rel(
                    states[j],
                    states[j + 1],
                    locals[j],
                    locals[j + 1],
                    *ctrl,
                    input@[j] as int,
                    spec_spb(old(self).sample_rate, ctrl.mbpm),
                    outs[j],
                ));
            assert(forall|j: int|
                0 <= j < input.len() ==> #[trigger] output@[j] == outs[j].out_sample);
            assert(rolling_events == spec_event_count(outs));
            assert(countin_consumed <==> exists|j: int|
                0 <= j < outs.len() && (#[trigger] outs[j]).countin_consumed);
            assert(input.len() > 0 ==> millibeat == Some(outs[input.len() - 1].millibeat));
            assert(input.len() == 0 ==> millibeat is None);
        }
        (BlockOut { rolling_events, countin_consumed, millibeat }, Ghost((states, locals, outs)))
    }
}

/// Without a pending count-in request the count-in machine is inert: a
/// sample neither starts a count-in, nor emits a rolling event from
/// nowhere, nor turns the request flag back on.
pub proof fn lemma_idle_countin_machine(
    pre: AudioEngine,
    post: AudioEngine,
    pre_local: bool,
    post_local: bool,
    ctrl: ControlIn,
    x: int,
    spb: int,
    so: SampleOut,
)
    requires
        AudioEngine::spec_sample_rel(pre, post, pre_local, post_local, ctrl, x, spb, so),
        !pre.countin_started,
        !pre_local,
    ensures
        !so.rolling_event,
        !so.countin_consumed,
        !post.countin_started,
        !post_local,
        post.rolling == pre.rolling,
{
}

/// A count-in in progress loses one beat per crossing and fires the
/// rolling event exactly at the crossing that finds it at zero; that
/// event ends the count-in and starts the transport rolling at beat one.
pub proof fn lemma_countin_progress(
    pre: AudioEngine,
    post: AudioEngine,
    pre_local: bool,
    post_local: bool,
    ctrl: ControlIn,
    x: int,
    spb: int,
    so: SampleOut,
)
    requires
        AudioEngine::spec_sample_rel(pre, post, pre_local, post_local, ctrl, x, spb, so),
        pre.countin_started,
    ensures
        so.rolling_event <==> (spec_beat_pos(pre.audio_clock, spb) < pre.last_beat_pos
            && pre.countin_left == 0),
        so.rolling_event ==> post.rolling && !post.countin_started && post.current_beat == 1,
        spec_beat_pos(pre.audio_clock, spb) < pre.last_beat_pos && pre.countin_left > 0
            ==> post.countin_started && post.countin_left == pre.countin_left - 1,
        !(spec_beat_pos(pre.audio_clock, spb) < pre.last_beat_pos) ==> post.countin_started
            && post.countin_left == pre.countin_left,
{
}

/// In any run in which no count-in request is pending, at most one
/// rolling-started event fires: the one that ends a count-in already in
/// progress.  With no count-in in progress either, none fires at all.
pub proof fn lemma_rolling_event_at_most_once(
    states: Seq<AudioEngine>,
    locals: Seq<bool>,
    outs: Seq<SampleOut>,
    ctrl: ControlIn,
    inputs: Seq<int>,
    spb: int,
    n: int,
)
    requires
        0 <= n,
        states.len() >= n + 1,
        locals.len() >= n + 1,
        outs.len() >= n,
        inputs.len() >= n,
        forall|i: int|
            0 <= i < n ==> #[trigger] AudioEngine::spec_sample_rel(
                states[i],
                states[i + 1],
                locals[i],
                locals[i + 1],
                ctrl,
                inputs[i],
                spb,
                outs[i],
            ),
        !locals[0],
    ensures
        !locals[n],
        spec_event_count(outs.take(n)) <= 1,
        spec_event_count(outs.take(n)) == 1 ==> !states[n].countin_started,
        !states[0].countin_started ==> spec_event_count(outs.take(n)) == 0 && !states[
            n
        ].countin_started,
    decreases n,
{
    if n == 0 {
        assert(outs.take(0) =~= Seq::<SampleOut>::empty());
    } else {
        lemma_rolling_event_at_most_once(states, locals, outs, ctrl, inputs, spb, n - 1);
        let i = n - 1;
        assert(AudioEngine::spec_sample_rel(
            states[i],
            states[i + 1],
            locals[i],
            locals[i + 1],
            ctrl,
            inputs[i],
            spb,
            outs[i],
        ));
        assert(outs.take(n).drop_last() =~= outs.take(n - 1));
        assert(outs.take(n).last() == outs[n - 1]);
    }
}

/// Samples per beat for a tempo at a sample rate.
pub fn samples_per_beat(sample_rate: i64, mbpm: u32) -> (spb: u64)
    requires
        MIN_SAMPLE_RATE <= sample_rate <= crate::oscillator::MAX_SAMPLE_RATE,
        MIN_MBPM <= mbpm <= MAX_MBPM,
    ensures
        spb == spec_spb(sample_rate, mbpm),
        20 <= spb <= 60_000_000,
{
    let mspb: u64 = 60_000_000u64 / (mbpm as u64);
    proof {
        assert(20 <= 60_000_000int / (mbpm as int) <= 60_000) by (nonlinear_arith)
            requires
                1_000 <= mbpm <= 3_000_000,
        ;
        assert((sample_rate as int) * 20 <= (sample_rate as int) * (60_000_000int / (mbpm as int))
            <= (sample_rate as int) * 60_000) by (nonlinear_arith)
            requires
                sample_rate >= 1,
                20 <= 60_000_000int / (mbpm as int) <= 60_000,
        ;
        assert(20_000int / 1000 <= (sample_rate as int) * (60_000_000int / (mbpm as int)) / 1000
            <= 60_000_000_000int / 1000) by (nonlinear_arith)
            requires
                20_000 <= (sample_rate as int) * (60_000_000int / (mbpm as int))
                    <= 60_000_000_000int,
        ;
    }
    ((sample_rate as u64) * mspb) / 1000
}

} // verus!
