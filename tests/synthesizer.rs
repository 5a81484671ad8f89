use wave_crafter::effects::{text_is, Effects};
use wave_crafter::timeline::{Clip, Timeline};
use wave_crafter::synthesizer::Synthesizer;
use wave_crafter::waveform::Waveform;

fn synth() -> Synthesizer<f32> {
    Synthesizer::new(440.0, 0.5, Waveform::Sine, Effects::new(0.0, 0.0))
}

#[test]
fn new_synthesizer_defaults() {
    let s = synth();
    assert_eq!(s.frequency_left, 440.0);
    assert_eq!(s.frequency_right, 440.0);
    assert_eq!(s.amplitude, 0.5);
    assert_eq!(s.waveform, Waveform::Sine);
    assert_eq!(s.effects.reverb, 0.0);
    assert_eq!(s.effects.delay, 0.0);
    assert!(s.timeline.clips.is_empty());
    assert!(s.mixer.tracks.is_empty());
}

#[test]
fn setters_change_one_parameter() {
    let mut s = synth();
    s.set_amplitude(0.8);
    assert_eq!(s.amplitude, 0.8);
    assert_eq!(s.frequency_left, 440.0);
    s.set_waveform(Waveform::Sawtooth);
    assert_eq!(s.waveform, Waveform::Sawtooth);
    assert_eq!(s.amplitude, 0.8);
    s.set_binaural_frequencies(200.0, 210.0);
    assert_eq!(s.frequency_left, 200.0);
    assert_eq!(s.frequency_right, 210.0);
    assert_eq!(s.waveform, Waveform::Sawtooth);
}

#[test]
fn set_effect_by_name() {
    let mut s = synth();
    assert!(s.set_effect("delay", 0.3));
    assert_eq!(s.effects.delay, 0.3);
    assert_eq!(s.effects.reverb, 0.0);
    assert!(s.update_effect("reverb", 0.7));
    assert_eq!(s.effects.reverb, 0.7);
    assert_eq!(s.effects.delay, 0.3);
}

#[test]
fn unknown_effect_changes_nothing() {
    let mut s = synth();
    s.set_effect("delay", 0.3);
    assert!(!s.set_effect("chorus", 0.9));
    assert!(!s.set_effect("Delay", 0.9));
    assert!(!s.set_effect("", 0.9));
    assert_eq!(s.effects.delay, 0.3);
    assert_eq!(s.effects.reverb, 0.0);
}

#[test]
fn effects_take_out_of_range_values() {
    let mut e = Effects::new(0.0f32, 0.0);
    assert!(e.set("reverb", -2.0));
    assert!(e.set("delay", 50.0));
    assert_eq!(e.reverb, -2.0);
    assert_eq!(e.delay, 50.0);
}

#[test]
fn text_comparison() {
    assert!(text_is("delay", "delay"));
    assert!(!text_is("delays", "delay"));
    assert!(!text_is("", "delay"));
}

#[test]
fn set_timeline_replaces_clips() {
    let mut s = synth();
    s.timeline.add_clip(Clip { id: "old".to_string(), start_time: 0.0, duration: 1.0, frequency: 1.0, amplitude: 1.0, waveform: Waveform::Sine });
    let mut t = Timeline::new();
    t.add_clip(Clip { id: "c1".to_string(), start_time: 0.0, duration: 1.0, frequency: 440.0, amplitude: 1.0, waveform: Waveform::Sine });
    t.add_clip(Clip { id: "c2".to_string(), start_time: 2.0, duration: 3.0, frequency: 220.0, amplitude: 0.5, waveform: Waveform::Square });
    s.set_timeline(t);
    assert_eq!(s.timeline.clips.len(), 2);
    assert_eq!(s.timeline.clips[0].id, "c1");
    assert_eq!(s.timeline.clips[1].waveform, Waveform::Square);
}

#[test]
fn channel_frequency_per_side() {
    let mut s = synth();
    s.set_binaural_frequencies(200.0, 210.0);
    assert_eq!(s.channel_frequency(true), 200.0);
    assert_eq!(s.channel_frequency(false), 210.0);
}
