use limestudio::plugin::crash::crash_log_filename;
use limestudio::plugin::interaction::{is_finite_bits, InteractionEvent, InteractionSequencer, InteractionStore, ParamAction};
use limestudio::plugin::observation::{WaveformMonitor, WAVEFORM_SAMPLES};
use limestudio::plugin::safety::Safety;

#[test]
fn store_returns_zero_for_unknown() {
    let store = InteractionStore::new();
    assert_eq!(f32::from_bits(store.get_value("gain")), 0.0);
}

#[test]
fn store_set_then_get() {
    let mut store = InteractionStore::new();
    store.set_value("gain", 0.75f32.to_bits());
    store.set_value("cutoff", 440.0f32.to_bits());
    store.set_value("gain", 0.5f32.to_bits());
    assert_eq!(f32::from_bits(store.get_value("gain")), 0.5);
    assert_eq!(f32::from_bits(store.get_value("cutoff")), 440.0);
}

#[test]
fn store_ignores_non_finite() {
    let mut store = InteractionStore::new();
    store.set_value("gain", 0.25f32.to_bits());
    store.set_value("gain", f32::NAN.to_bits());
    store.set_value("gain", f32::INFINITY.to_bits());
    store.set_value("other", f32::NEG_INFINITY.to_bits());
    assert_eq!(f32::from_bits(store.get_value("gain")), 0.25);
    assert_eq!(store.get_value("other"), 0);
}

#[test]
fn finite_bits_match_f32() {
    for v in [0.0f32, -0.0, 1.0, f32::MAX, f32::MIN_POSITIVE, 1e-45, f32::NAN, f32::INFINITY, f32::NEG_INFINITY] {
        assert_eq!(is_finite_bits(v.to_bits()), v.is_finite());
    }
}

fn drag(kind: u8, id: &str, seq: u64) -> InteractionEvent {
    let param_id = id.to_string();
    match kind {
        0 => InteractionEvent::BeginDrag { param_id, seq_id: seq },
        1 => InteractionEvent::Drag { param_id, seq_id: seq },
        _ => InteractionEvent::EndDrag { param_id, seq_id: seq },
    }
}

#[test]
fn sequencer_drops_stale_drags() {
    let mut s = InteractionSequencer::new();
    assert_eq!(s.handle(drag(1, "gain", 0)), ParamAction::Stale);
    assert_eq!(s.handle(drag(0, "gain", 1)), ParamAction::Begin);
    assert_eq!(s.handle(drag(1, "gain", 2)), ParamAction::Apply);
    assert_eq!(s.handle(drag(1, "gain", 2)), ParamAction::Stale);
    assert_eq!(s.handle(drag(1, "gain", 1)), ParamAction::Stale);
    assert_eq!(s.handle(drag(1, "cutoff", 1)), ParamAction::Apply);
    assert_eq!(s.handle(drag(1, "gain", 5)), ParamAction::Apply);
    assert_eq!(s.handle(drag(2, "gain", 3)), ParamAction::End);
    assert_eq!(s.handle(drag(1, "gain", 4)), ParamAction::Apply);
}

#[test]
fn crash_file_name_replaces_spaces() {
    assert_eq!(crash_log_filename("My Synth Pro", "1700000000"), "LIME_CRASH_My_Synth_Pro_1700000000.txt");
    assert_eq!(crash_log_filename("", "t"), "LIME_CRASH__t.txt");
}

#[test]
fn waveform_monitor_emits_full_frames() {
    let mut m = WaveformMonitor::new(2);
    let mut frames = Vec::new();
    for i in 0..(2 * WAVEFORM_SAMPLES as u32 + 1) {
        if let Some(f) = m.process(i) {
            frames.push(f);
        }
    }
    assert_eq!(frames.len(), 1);
    assert_eq!(frames[0][0], 1);
    assert_eq!(frames[0][1], 3);
    assert_eq!(frames[0][WAVEFORM_SAMPLES - 1], 2 * WAVEFORM_SAMPLES as u32 - 1);
}

#[test]
fn waveform_monitor_zero_interval_keeps_every_sample() {
    let mut m = WaveformMonitor::new(0);
    let mut last = None;
    for i in 0..WAVEFORM_SAMPLES as u32 {
        last = m.process(i);
    }
    let frame = last.expect("a frame after 256 samples");
    assert_eq!(frame[0], 0);
    assert_eq!(frame[255], 255);
}

#[test]
fn assert_rt_safe_does_not_panic() {
    Safety::assert_rt_safe();
}
