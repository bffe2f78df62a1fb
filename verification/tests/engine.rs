//! End-to-end tests of the audio engine and the session state machines.

use loooper::blink::{beat_image, beat_of_millibeat, image_row_byte};
use loooper::button::pad_index;
use loooper::callback::{samples_per_beat, AudioEngine, ControlIn};
use loooper::countin::CountInState;
use loooper::prepare::PrepareState;
use loooper::rolling::{RollingAction, RollingState};
use loooper::setup::SetUpState;
use loooper::slot::boundary_fires;
use loooper::ui::UiKey;

const SR: i64 = 48_000;

fn control(enabled: bool, countin: bool, countin_length: u32, mbpm: u32) -> ControlIn {
    ControlIn {
        enabled,
        countin,
        countin_length,
        mbpm,
        loop_length: vec![0; 8],
        loop_starting: vec![false; 8],
    }
}

fn run(engine: &mut AudioEngine, ctrl: &ControlIn, input: &[i64]) -> (Vec<i64>, u32, bool) {
    let input: Vec<i64> = input.to_vec();
    let mut output: Vec<i64> = vec![0; input.len()];
    let (block, _) = engine.process_block(ctrl, &input, &mut output);
    (output, block.rolling_events, block.countin_consumed)
}

#[test]
fn test_samples_per_beat() {
    assert_eq!(samples_per_beat(48_000, 120_000), 24_000);
    assert_eq!(samples_per_beat(48_000, 60_000), 48_000);
    assert_eq!(samples_per_beat(44_100, 120_000), 22_050);
}

#[test]
fn test_boundary_table() {
    // Loop lengths snap to their power-of-two grid.
    for beat in 1..70u32 {
        assert!(!boundary_fires(0, beat));
        assert!(boundary_fires(1, beat));
        assert_eq!(boundary_fires(2, beat), beat % 2 == 1);
        assert_eq!(boundary_fires(3, beat), beat % 4 == 1);
        assert_eq!(boundary_fires(5, beat), beat % 8 == 1);
        assert_eq!(boundary_fires(9, beat), beat % 16 == 1);
        assert_eq!(boundary_fires(17, beat), beat % 32 == 1);
        assert_eq!(boundary_fires(33, beat), beat == 1);
    }
}

#[test]
fn test_idle_silence() {
    // Disabled: a block of arbitrary input comes out as pure silence.
    let mut engine = AudioEngine::new(SR);
    let ctrl = control(false, false, 0, 120_000);
    let input: Vec<i64> = (0..512).map(|i| (i * 1000 - 200_000) as i64).collect();
    let (output, events, consumed) = run(&mut engine, &ctrl, &input);
    assert_eq!(output.len(), 512);
    assert!(output.iter().all(|&s| s == 0));
    assert_eq!(events, 0);
    assert!(!consumed);
    assert!(!engine.last_enabled);
}

#[test]
fn test_metronome_only() {
    // Enabled at 120 BPM without a count-in: two seconds hold four beats
    // and the transport never starts rolling.
    let mut engine = AudioEngine::new(SR);
    let ctrl = control(true, false, 0, 120_000);
    let input: Vec<i64> = vec![0; 96_000];
    let mut output: Vec<i64> = vec![0; 96_000];
    let (block, _) = engine.process_block(&ctrl, &input, &mut output);
    assert_eq!(block.rolling_events, 0);
    assert!(!block.countin_consumed);
    // Final published position: beat 4, just shy of beat 5.
    assert_eq!(block.millibeat, Some(4_999));
    assert_eq!(engine.current_beat, 4);
    assert!(!engine.rolling);
    // The click is audible right after a beat start.
    assert!(output[10] != 0);
    // With silent input the output is only the click: by a quarter beat
    // in, the envelope has been released and decays towards silence.
    assert!(output.iter().any(|&s| s != 0));
}

#[test]
fn test_countin_then_rolling() {
    // A four-beat count-in: the rolling event arrives on the fifth
    // crossing, with the beat counter restarted at one.
    let mut engine = AudioEngine::new(SR);
    let ctrl = control(true, true, 4, 120_000);
    let input: Vec<i64> = vec![0; 96_050];
    let mut output: Vec<i64> = vec![0; 96_050];
    let (block, _) = engine.process_block(&ctrl, &input, &mut output);
    assert!(block.countin_consumed);
    assert_eq!(block.rolling_events, 1);
    assert!(engine.rolling);
    assert!(!engine.countin_started);
    assert_eq!(engine.current_beat, 1);
    assert_eq!(block.millibeat, Some(1_002));
    // The rolling beat clicks high.
    assert_eq!(engine.click_osc.freq_millihz, 523_250);
    // Running on, no second event appears.
    let ctrl2 = control(true, false, 0, 120_000);
    let input2: Vec<i64> = vec![0; 48_000];
    let mut output2: Vec<i64> = vec![0; 48_000];
    let (block2, _) = engine.process_block(&ctrl2, &input2, &mut output2);
    assert_eq!(block2.rolling_events, 0);
    assert!(engine.rolling);
}

#[test]
fn test_record_then_loop() {
    // Slot 0 is armed with a four-beat loop: it captures for four beats
    // and then plays back.
    let mut engine = AudioEngine::new(SR);
    let mut ctrl = control(true, true, 0, 120_000);
    ctrl.loop_length[0] = 4;
    ctrl.loop_starting[0] = true;
    // The zero-length count-in rolls immediately; the first crossing
    // arms the slot.
    let input: Vec<i64> = vec![100_000; 24_010];
    let mut output: Vec<i64> = vec![0; 24_010];
    let (block, _) = engine.process_block(&ctrl, &input, &mut output);
    assert_eq!(block.rolling_events, 1);
    assert!(engine.rolling);
    assert!(engine.slots[0].capturing);
    assert!(!engine.slots[0].looping);
    assert!(!engine.slots[0].filled);
    // The captured samples are the distorted input: drive 8, mix 0.5 on
    // 0.1 stores 0.387.
    assert_eq!(engine.slots[0].buffer[0], 387_000);
    // Keep running past the boundary at beat 5: the capture turns into a
    // playing loop.
    ctrl.countin = false;
    let input2: Vec<i64> = vec![100_000; 96_000];
    let mut output2: Vec<i64> = vec![0; 96_000];
    let _ = engine.process_block(&ctrl, &input2, &mut output2);
    assert!(engine.slots[0].filled);
    assert!(engine.slots[0].looping);
    assert!(!engine.slots[0].capturing);
}

#[test]
fn test_stop_a_loop() {
    // While looping, clearing the arming flag stops the slot at its next
    // snapped boundary; the recorded audio stays.
    let mut engine = AudioEngine::new(SR);
    let mut ctrl = control(true, true, 0, 120_000);
    ctrl.loop_length[0] = 4;
    ctrl.loop_starting[0] = true;
    let input: Vec<i64> = vec![100_000; 120_010];
    let mut output: Vec<i64> = vec![0; 120_010];
    let _ = engine.process_block(&ctrl, &input, &mut output);
    assert!(engine.slots[0].looping);
    // The writer clears the flag.
    ctrl.countin = false;
    ctrl.loop_starting[0] = false;
    let input2: Vec<i64> = vec![0; 96_000];
    let mut output2: Vec<i64> = vec![0; 96_000];
    let _ = engine.process_block(&ctrl, &input2, &mut output2);
    assert!(!engine.slots[0].looping);
    assert!(!engine.slots[0].capturing);
    assert!(engine.slots[0].filled);
    // Buffer contents remain intact.
    assert_eq!(engine.slots[0].buffer[0], 387_000);
}

#[test]
fn test_disable_mid_stream() {
    // Disabling silences the very next block; re-enabling restarts the
    // clock and the metronome frequency.
    let mut engine = AudioEngine::new(SR);
    let ctrl_on = control(true, false, 0, 120_000);
    let input: Vec<i64> = vec![50_000; 30_000];
    let mut output: Vec<i64> = vec![0; 30_000];
    let _ = engine.process_block(&ctrl_on, &input, &mut output);
    assert_eq!(engine.audio_clock, 30_000);
    let ctrl_off = control(false, false, 0, 120_000);
    let input2: Vec<i64> = vec![50_000; 512];
    let mut output2: Vec<i64> = vec![0; 512];
    let (b2, _) = engine.process_block(&ctrl_off, &input2, &mut output2);
    assert!(output2.iter().all(|&s| s == 0));
    assert!(b2.millibeat.is_none());
    // Re-enable: the metronome frequency is reset to its default before
    // any sample runs...
    let input3: Vec<i64> = vec![];
    let mut output3: Vec<i64> = vec![];
    let _ = engine.process_block(&ctrl_on, &input3, &mut output3);
    assert_eq!(engine.audio_clock, 0);
    assert_eq!(engine.click_osc.freq_millihz, 261_625);
    // ...and the clock restarts from zero (the immediate first-sample
    // beat then retunes the idle click).
    let input4: Vec<i64> = vec![0; 100];
    let mut output4: Vec<i64> = vec![0; 100];
    let _ = engine.process_block(&ctrl_on, &input4, &mut output4);
    assert_eq!(engine.audio_clock, 100);
    assert_eq!(engine.click_osc.freq_millihz, 440_000);
}

#[test]
fn test_crossing_count_examples() {
    // Crossings among the first N samples: the immediate first-sample
    // crossing plus one per completed beat.
    let mut engine = AudioEngine::new(SR);
    let ctrl = control(true, false, 0, 120_000);
    let input: Vec<i64> = vec![0; 72_001];
    let mut output: Vec<i64> = vec![0; 72_001];
    let _ = engine.process_block(&ctrl, &input, &mut output);
    // Clock 0, 24000, 48000 and 72000 crossed: four beats counted.
    assert_eq!(engine.current_beat, 4);
}

#[test]
fn test_session_phase_flow() {
    // Setup -> Prepare -> CountIn -> Rolling, as the key handlers drive
    // it.
    let mut setup = SetUpState::new();
    setup.handle_key_event(UiKey::Right);
    assert_eq!(setup.mbpm, 130_000);
    setup.handle_key_event(UiKey::Tab);
    assert_eq!(setup.precision, 1_000);
    setup.handle_key_event(UiKey::Left);
    assert_eq!(setup.mbpm, 129_000);
    setup.handle_key_event(UiKey::Char('a'));
    assert_eq!(setup.loops.len(), 2);
    setup.handle_key_event(UiKey::Down);
    assert_eq!(setup.selected, 1);
    setup.handle_key_event(UiKey::Right);
    assert_eq!(setup.loops[0].beat_count, 5);
    // The first loop starts armed; toggling flips it off and back on.
    setup.handle_key_event(UiKey::Tab);
    assert!(!setup.loops[0].starting);
    setup.handle_key_event(UiKey::Tab);
    assert!(setup.loops[0].starting);
    setup.handle_key_event(UiKey::Char('l'));
    assert!(setup.loops[0].layering);
    setup.handle_key_event(UiKey::Char(' '));
    assert!(setup.phase_changing());
    assert!(!setup.exiting());

    let mut prepare = PrepareState::from_setup_state(setup);
    assert_eq!(prepare.mbpm, 129_000);
    assert_eq!(prepare.loops.len(), 2);
    assert_eq!(prepare.loops[0].beat_count, 5);
    let update = prepare.handle_key_event(UiKey::Char(' ')).unwrap();
    assert!(prepare.phase_changing());
    assert!(update.countin);
    assert_eq!(update.countin_length, 8);
    assert_eq!(update.loop_length, vec![5, 4]);
    assert_eq!(
        update.loop_starting,
        vec![true, false, false, false, false, false, false, false]
    );
    assert_eq!(update.loop_layering, vec![true, false]);

    let mut countin = CountInState::from_prepare_state(prepare);
    assert_eq!(countin.handle_key_event(UiKey::Char(' ')), Some(0));
    countin.handle_key_event(UiKey::Down);
    assert_eq!(countin.selected, 1);
    countin.on_rolling_started();
    assert!(countin.phase_changing());

    let mut rolling = RollingState::from_countin_state(countin);
    assert_eq!(rolling.selected, 1);
    assert_eq!(
        rolling.handle_key_event(UiKey::Char('1')),
        Some(RollingAction::Pad(0))
    );
    assert_eq!(
        rolling.handle_key_event(UiKey::Char(' ')),
        Some(RollingAction::ToggleStarting(1))
    );
    rolling.handle_key_event(UiKey::Esc);
    assert!(rolling.phase_changing());
    rolling.handle_key_event(UiKey::Char('q'));
    assert!(rolling.exiting());
}

#[test]
fn test_setup_bpm_limits() {
    let mut setup = SetUpState::new();
    for _ in 0..1000 {
        setup.handle_key_event(UiKey::Right);
    }
    assert_eq!(setup.mbpm, 3_000_000);
    for _ in 0..1000 {
        setup.handle_key_event(UiKey::Left);
    }
    assert_eq!(setup.mbpm, 1_000);
}

#[test]
fn test_beat_display() {
    assert_eq!(beat_of_millibeat(4_999), 4);
    assert_eq!(beat_image(0), beat_image(10));
    assert_eq!(beat_image(3), 0x3c66603860663c00);
    assert_eq!(image_row_byte(0x3c66603860663c00, 0), 0x00);
    assert_eq!(image_row_byte(0x3c66603860663c00, 7), 0x3c);
}

#[test]
fn test_pad_index_mapping() {
    assert_eq!(pad_index(0), None);
    assert_eq!(pad_index(8), None);
    assert_eq!(pad_index(9), Some(0));
    assert_eq!(pad_index(12), Some(3));
}
