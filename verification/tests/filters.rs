//! Tests for the DSP primitives: envelope, delay line, distortion,
//! oscillator, wah, reverb and sample pad.

use loooper::adsr::ADSR;
use loooper::delay::Delay;
use loooper::distortion::Distortion;
use loooper::fixed::{clamp_amp, scale, sin_turns, soft_clip, AMP_LIMIT, UNIT};
use loooper::oscillator::Oscillator;
use loooper::reverb::Reverb;
use loooper::sample::SamplePad;
use loooper::wah::Wah;

#[test]
fn test_adsr() {
    // 0.01 s attack, 0.1 s decay, 0.8 sustain, 0.1 s release, stepped at
    // 48 kHz (times in nanoseconds, levels in millionths).
    let mut adsr = ADSR::new(10_000_000, 100_000_000, 800_000, 100_000_000);
    let mut levels = vec![];

    assert_eq!(adsr.level(), 0);
    for _ in 0..100000 {
        levels.push(adsr.forward(1_000_000_000 / 48000));
    }
    assert!(levels.iter().all(|&x| (0..=UNIT).contains(&x)));
    assert_eq!(adsr.level(), 800_000);
    adsr.release();
    levels.clear();
    for _ in 0..100000 {
        levels.push(adsr.forward(1_000_000_000 / 48000));
    }
    assert!(levels.iter().all(|&x| (0..=800_000).contains(&x)));
    assert_eq!(adsr.level(), 0);

    adsr.reset();
    assert_eq!(adsr.level(), 0);
    levels.clear();
    let mut time: i64 = 0;
    for _ in 0..100 {
        levels.push(adsr.forward(2_300_000));
        time += 2_300_000;
        assert_eq!(adsr.level(), *levels.last().unwrap());
        println!("{},{}", time, adsr.level());
    }
    adsr.release();
    for _ in 0..100 {
        levels.push(adsr.forward(2_300_000));
        time += 2_300_000;
        assert_eq!(adsr.level(), *levels.last().unwrap());
        println!("{},{}", time, adsr.level());
    }
    assert_eq!(levels.len(), 200);
}

#[test]
fn test_adsr_release_outside_sustain_is_noop() {
    let mut adsr = ADSR::new(10_000_000, 100_000_000, 800_000, 100_000_000);
    adsr.release();
    assert_eq!(adsr.level(), 0);
    let l = adsr.forward(1_000_000);
    assert!(l > 0);
}

#[test]
fn test_adsr_zero_release_jumps_to_end() {
    let mut adsr = ADSR::new(0, 0, 700_000, 0);
    // Instant attack and decay: one step lands in sustain.
    adsr.forward(1);
    assert_eq!(adsr.level(), 700_000);
    adsr.release();
    assert_eq!(adsr.level(), 0);
    assert_eq!(adsr.forward(1), 0);
}

// The expected output of one delay-line step, computed independently in
// plain fixed-point arithmetic.
fn expected_delay_out(dry: i64, delayed: i64, feedback: i64, wet: i64) -> i64 {
    let fed = dry + delayed * feedback / UNIT;
    dry * (UNIT - wet) / UNIT + fed * wet / UNIT
}

fn test_delay_with_const(delay: &mut Delay) {
    let wet = delay.wet;
    let feedback = delay.feedback;
    let sample_count = delay.delay_line_length();

    {
        let in_sample = 500_000;
        let out_sample = delay.apply(in_sample);
        assert!(out_sample == in_sample);
    }
    let in_sample = 665_000;
    for _ in 1..sample_count {
        let out_sample = delay.apply(in_sample);
        assert!(out_sample == in_sample);
    }

    {
        let old_in_sample = 500_000;
        let in_sample = 242_000;
        let out_sample = delay.apply(in_sample);
        assert_eq!(
            out_sample,
            expected_delay_out(in_sample, old_in_sample, feedback, wet)
        );
    }
    let old_in_sample = in_sample;
    let in_sample = 137_000;
    for _ in 1..sample_count {
        let out_sample = delay.apply(in_sample);
        assert_eq!(
            out_sample,
            expected_delay_out(in_sample, old_in_sample, feedback, wet)
        );
    }

    {
        let old_old_sample = 500_000;
        let old_in_sample = 242_000;
        let in_sample = 326_000;
        let out_sample = delay.apply(in_sample);
        let old_written = old_in_sample + old_old_sample * feedback / UNIT;
        assert_eq!(
            out_sample,
            expected_delay_out(in_sample, old_written, feedback, wet)
        );
    }
    let old_old_sample = old_in_sample;
    let old_in_sample = in_sample;
    let in_sample = 999_000;
    for _ in 1..sample_count {
        let out_sample = delay.apply(in_sample);
        let old_written = old_in_sample + old_old_sample * feedback / UNIT;
        assert_eq!(
            out_sample,
            expected_delay_out(in_sample, old_written, feedback, wet)
        );
    }
}

#[test]
fn test_delay() {
    const SAMPLE_COUNT: usize = 4800;
    const FEEDBACK: i64 = 100_000;
    const WET: i64 = 800_000;
    let mut delay = Delay::new(SAMPLE_COUNT, FEEDBACK, WET);
    assert_eq!(delay.line.len(), SAMPLE_COUNT);
    assert_eq!(delay.feedback, FEEDBACK);
    assert_eq!(delay.wet, WET);

    test_delay_with_const(&mut delay);
}

#[test]
#[should_panic]
fn test_delay_twice() {
    const SAMPLE_COUNT: usize = 4800;
    const FEEDBACK: i64 = 100_000;
    const WET: i64 = 800_000;
    let mut delay = Delay::new(SAMPLE_COUNT, FEEDBACK, WET);
    test_delay_with_const(&mut delay);
    test_delay_with_const(&mut delay);
}

#[test]
fn test_delay_twice_with_reset() {
    const SAMPLE_COUNT: usize = 4800;
    const FEEDBACK: i64 = 100_000;
    const WET: i64 = 800_000;
    let mut delay = Delay::new(SAMPLE_COUNT, FEEDBACK, WET);
    test_delay_with_const(&mut delay);
    delay.reset_delay();
    test_delay_with_const(&mut delay);
}

#[test]
fn test_delay_length() {
    const SAMPLE_COUNT: usize = 4800;
    const FEEDBACK: i64 = 100_000;
    const WET: i64 = 800_000;
    let mut delay = Delay::new(SAMPLE_COUNT, FEEDBACK, WET);
    assert_eq!(delay.delay_line_length(), SAMPLE_COUNT);

    delay.resize(2400);
    for _ in 0..10 * SAMPLE_COUNT {
        delay.apply(0);
    }
    assert_eq!(delay.delay_line_length(), 2400);
    delay.reset_delay();
    assert_eq!(delay.delay_line_length(), 2400);
    test_delay_with_const(&mut delay);

    delay.resize(3600);
    for _ in 0..10 * SAMPLE_COUNT {
        delay.apply(0);
    }
    assert_eq!(delay.delay_line_length(), 3600);
    delay.reset_delay();
    assert_eq!(delay.delay_line_length(), 3600);
    test_delay_with_const(&mut delay);

    delay.resize(6000);
    for _ in 0..10 * SAMPLE_COUNT {
        delay.apply(0);
    }
    assert_eq!(delay.delay_line_length(), 4800);
    delay.reset_delay();
    assert_eq!(delay.delay_line_length(), 4800);
    test_delay_with_const(&mut delay);
}

#[test]
fn test_delay_resize_to_one_and_back() {
    let mut delay = Delay::new(16, 0, UNIT);
    delay.resize(1);
    assert_eq!(delay.delay_line_length(), 1);
    delay.resize(16);
    assert_eq!(delay.delay_line_length(), 16);
    delay.resize(7);
    assert_eq!(delay.delay_line_length(), 7);
}

#[test]
fn test_delay_pure_delay_by_capacity() {
    // Feedback 0, wet 1: the line records, and what it stored comes back
    // through the feedback path only; the write of step 0 sits at slot 0
    // and is read again at step `len`.
    let mut delay = Delay::new(8, 0, UNIT);
    let first = 123_000;
    assert_eq!(delay.apply(first), first);
    for _ in 1..8 {
        assert_eq!(delay.apply(7_000), 7_000);
    }
    // Step 8 reads the slot written at step 0; with feedback 0 the
    // output is still the dry input, but the stored echo it read was
    // `first`, observable with nonzero feedback instead:
    let mut echoing = Delay::new(8, UNIT / 2, UNIT);
    assert_eq!(echoing.apply(first), first);
    for _ in 1..8 {
        echoing.apply(0);
    }
    // After exactly `len` steps the first input re-emerges, halved.
    assert_eq!(echoing.apply(0), first / 2);
}

#[test]
fn test_distortion_mix_zero_is_identity() {
    let d = Distortion::new(8 * UNIT, 0);
    assert_eq!(d.process(0), 0);
    assert_eq!(d.process(123_456), 123_456);
    assert_eq!(d.process(-987_654), -987_654);
    assert_eq!(d.process(AMP_LIMIT), AMP_LIMIT);
}

#[test]
fn test_distortion_bounded_on_full_scale_inputs() {
    let d = Distortion::new(8 * UNIT, UNIT);
    for x in [-UNIT, -750_000, -1, 0, 1, 99_999, 500_000, UNIT] {
        let y = d.process(x);
        assert!(-UNIT <= y && y <= UNIT);
    }
}

#[test]
fn test_distortion_exact_value() {
    // drive 8, mix 0.5 on input 0.1: the driven sample 0.8 soft-clips to
    // 0.674, and the equal mix gives 0.05 + 0.337.
    let d = Distortion::new(8_000_000, 500_000);
    assert_eq!(d.process(100_000), 387_000);
}

#[test]
fn test_soft_clip_and_sine_landmarks() {
    assert_eq!(soft_clip(0), 0);
    assert!(soft_clip(UNIT) <= UNIT);
    assert!(soft_clip(-UNIT) >= -UNIT);
    // The sine approximation is exact at the quarter turns.
    assert_eq!(sin_turns(0), 0);
    assert_eq!(sin_turns(250_000), UNIT);
    assert_eq!(sin_turns(500_000), 0);
    assert_eq!(sin_turns(750_000), -UNIT);
}

#[test]
fn test_scale_and_clamp() {
    assert_eq!(scale(500_000, 500_000), 250_000);
    assert_eq!(scale(-500_000, 500_000), -250_000);
    assert_eq!(scale(123_456, UNIT), 123_456);
    assert_eq!(scale(123_456, 0), 0);
    assert_eq!(clamp_amp(AMP_LIMIT + 5), AMP_LIMIT);
    assert_eq!(clamp_amp(-AMP_LIMIT - 5), -AMP_LIMIT);
    assert_eq!(clamp_amp(42), 42);
}

#[test]
fn test_oscillator_phase_and_set_freq() {
    let mut o = Oscillator::new(261_625, 48_000);
    assert_eq!(o.phase, 0);
    assert_eq!(o.level(), 0);
    // 261.625 Hz at 48 kHz: 5450 millionths of a turn per sample.
    assert_eq!(o.phase_increment, 261_625 * UNIT / (1000 * 48_000));
    o.increment();
    assert_eq!(o.phase, o.phase_increment);
    let phase_before = o.phase;
    o.set_freq(523_250);
    // Changing the frequency keeps the phase: no click.
    assert_eq!(o.phase, phase_before);
    assert_eq!(o.phase_increment, 523_250 * UNIT / (1000 * 48_000));
}

#[test]
fn test_wah_first_sample() {
    // 2 Hz sweep between 500 Hz and 3 kHz at Q 0.8 and 48 kHz.
    let mut w = Wah::new(48_000, 2_000, 500_000, 3_000_000, 800_000);
    let out = w.apply(100_000);
    // First sample: LFO sits mid-sweep, the band state takes its first
    // step from zero, and the output is the band state.
    assert_eq!(out, w.band);
    assert!(out > 0);
    assert!(out < 100_000);
    // The filter keeps running without leaving the amplitude range.
    for _ in 0..10_000 {
        let y = w.apply(100_000);
        assert!(-AMP_LIMIT <= y && y <= AMP_LIMIT);
    }
}

#[test]
fn test_reverb_first_sample_passthrough() {
    // On a silent reverb the combs return the input itself (full wet,
    // nothing stored), the all-passes pass it on, and the gain scales.
    let comb_ms = vec![30usize, 37, 41, 43];
    let ap_ms = vec![5usize, 2];
    let mut r = Reverb::new(48_000, &comb_ms, 500_000, &ap_ms, 500_000, 500_000);
    let out = r.apply(200_000);
    assert_eq!(out, 100_000);
}

#[test]
fn test_sample_pad_playback() {
    let pcm: Vec<i16> = vec![0, 16384, -16384, 32767];
    let mut pad = SamplePad::from_pcm(&pcm);
    assert!(pad.ended());
    assert_eq!(pad.next_sample(), 0);
    pad.start();
    assert!(!pad.ended());
    assert_eq!(pad.next_sample(), 0);
    assert_eq!(pad.next_sample(), 16384 * UNIT / 32767);
    assert_eq!(pad.next_sample(), -(16384 * UNIT / 32767));
    assert_eq!(pad.next_sample(), UNIT);
    assert!(pad.ended());
    assert_eq!(pad.next_sample(), 0);

    let mut empty = SamplePad::empty();
    empty.start();
    assert!(empty.ended());
}
