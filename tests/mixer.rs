use wave_crafter::effects::Effects;
use wave_crafter::mixer::{Mixer, Track};
use wave_crafter::synthesizer::Synthesizer;
use wave_crafter::waveform::Waveform;

#[test]
fn new_track_is_unmuted() {
    let t = Track::new("drums", 0.5f32);
    assert_eq!(t.id, "drums");
    assert_eq!(t.volume, 0.5);
    assert!(!t.muted);
}

#[test]
fn muted_tracks_are_not_heard() {
    let mut m = Mixer::new();
    m.add_track(Track::new("a", 0.25f32));
    m.add_track(Track::new("b", 100.0));
    m.add_track(Track::new("c", 0.75));
    m.toggle_mute(1);
    assert!(m.tracks[1].muted);
    assert_eq!(m.tracks[1].volume, 100.0);
    assert_eq!(m.audible_volumes(), vec![0.25, 0.75]);
}

#[test]
fn muted_volume_does_not_matter() {
    let mut m = Mixer::new();
    m.add_track(Track::new("a", 0.5f32));
    m.toggle_mute(0);
    assert!(m.audible_volumes().is_empty());
    m.tracks[0].volume = 1.0e9;
    assert!(m.audible_volumes().is_empty());
    m.toggle_mute(0);
    assert_eq!(m.audible_volumes(), vec![1.0e9]);
}

#[test]
fn empty_mixer_hears_nothing() {
    let m: Mixer<f32> = Mixer::new();
    assert!(m.audible_volumes().is_empty());
}

#[test]
fn synthesizer_adds_tracks_to_mixer() {
    let mut s = Synthesizer::new(440.0f32, 0.5, Waveform::Sine, Effects::new(0.0, 0.0));
    s.add_track("New Track", 0.5);
    s.add_track("Other", 0.25);
    assert_eq!(s.mixer.tracks.len(), 2);
    assert_eq!(s.mixer.tracks[0].id, "New Track");
    assert_eq!(s.mixer.tracks[1].volume, 0.25);
    assert_eq!(s.mixer.audible_volumes(), vec![0.5, 0.25]);
}
