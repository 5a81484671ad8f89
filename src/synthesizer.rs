//! The synthesizer state that every reader of samples works from.

use vstd::prelude::*;
use crate::effects::Effects;
use crate::mixer::{Mixer, Track};
use crate::timeline::Timeline;
use crate::waveform::Waveform;

verus! {

/// The whole state that synthesis reads: the binaural tone parameters, the
/// effect intensities, the timeline of clips and the mixer, which is the one
/// owner of the tracks.
pub struct Synthesizer<S> {
    pub frequency_left: S,
    pub frequency_right: S,
    pub amplitude: S,
    pub waveform: Waveform,
    pub effects: Effects<S>,
    pub timeline: Timeline<S>,
    pub mixer: Mixer<S>,
}

impl<S> Synthesizer<S> {
    /// Whether `self` and `other` hold the same effects, timeline and mixer.
    pub open spec fn same_parts(self, other: Synthesizer<S>) -> bool {
        &&& self.effects == other.effects
        &&& self.timeline == other.timeline
        &&& self.mixer == other.mixer
    }

    /// Whether `self` and `other` hold the same tone parameters.
    pub open spec fn same_tone(self, other: Synthesizer<S>) -> bool {
        &&& self.frequency_left == other.frequency_left
        &&& self.frequency_right == other.frequency_right
        &&& self.amplitude == other.amplitude
        &&& self.waveform == other.waveform
    }

    pub fn set_amplitude(&mut self, amplitude: S)
        ensures
            final(self).amplitude == amplitude,
            final(self).frequency_left == old(self).frequency_left,
            final(self).frequency_right == old(self).frequency_right,
            final(self).waveform == old(self).waveform,
            final(self).same_parts(*old(self)),
    {
        self.amplitude = amplitude;
    }

    pub fn set_waveform(&mut self, waveform: Waveform)
        ensures
            final(self).waveform == waveform,
            final(self).frequency_left == old(self).frequency_left,
            final(self).frequency_right == old(self).frequency_right,
            final(self).amplitude == old(self).amplitude,
            final(self).same_parts(*old(self)),
    {
        self.waveform = waveform;
    }

    /// Sets the frequency of each channel.
    pub fn set_binaural_frequencies(&mut self, left: S, right: S)
        ensures
            final(self).frequency_left == left,
            final(self).frequency_right == right,
            final(self).amplitude == old(self).amplitude,
            final(self).waveform == old(self).waveform,
            final(self).same_parts(*old(self)),
    {
        self.frequency_left = left;
        self.frequency_right = right;
    }

    /// Adds an unmuted track with the given id and level to the mixer.
    pub fn add_track(&mut self, id: &str, volume: S)
        ensures
            final(self).mixer.tracks@.len() == old(self).mixer.tracks@.len() + 1,
            final(self).mixer.tracks@.drop_last() == old(self).mixer.tracks@,
            final(self).mixer.tracks@.last().id@ == id@,
            final(self).mixer.tracks@.last().volume == volume,
            !final(self).mixer.tracks@.last().muted,
            final(self).same_tone(*old(self)),
            final(self).effects == old(self).effects,
            final(self).timeline == old(self).timeline,
    {
        let track = Track::new(id, volume);
        self.mixer.add_track(track);
        assert(self.mixer.tracks@.drop_last() =~= old(self).mixer.tracks@);
    }

    /// Sets the effect called `name` (`"reverb"` or `"delay"`); an unknown
    /// name changes nothing and is reported by returning false.
    pub fn set_effect(&mut self, name: &str, value: S) -> (known: bool)
        ensures
            known == (name@ == "delay"@ || name@ == "reverb"@),
            final(self).effects.delay == if name@ == "delay"@ { value } else { old(self).effects.delay },
            final(self).effects.reverb == if name@ == "reverb"@ { value } else { old(self).effects.reverb },
            final(self).same_tone(*old(self)),
            final(self).timeline == old(self).timeline,
            final(self).mixer == old(self).mixer,
    {
        self.effects.set(name, value)
    }

    /// The same as `set_effect`.
    pub fn update_effect(&mut self, name: &str, value: S) -> (known: bool)
        ensures
            known == (name@ == "delay"@ || name@ == "reverb"@),
            final(self).effects.delay == if name@ == "delay"@ { value } else { old(self).effects.delay },
            final(self).effects.reverb == if name@ == "reverb"@ { value } else { old(self).effects.reverb },
            final(self).same_tone(*old(self)),
            final(self).timeline == old(self).timeline,
            final(self).mixer == old(self).mixer,
    {
        self.set_effect(name, value)
    }

    /// Replaces the whole timeline, as loading a project does.
    pub fn set_timeline(&mut self, timeline: Timeline<S>)
        ensures
            final(self).timeline == timeline,
            final(self).same_tone(*old(self)),
            final(self).effects == old(self).effects,
            final(self).mixer == old(self).mixer,
    {
        self.timeline = timeline;
    }
}

impl<S: Copy> Synthesizer<S> {
    /// A synthesizer playing `frequency` on both channels, with an empty
    /// timeline and no tracks.
    pub fn new(frequency: S, amplitude: S, waveform: Waveform, effects: Effects<S>) -> (r: Synthesizer<S>)
        ensures
            r.frequency_left == frequency,
            r.frequency_right == frequency,
            r.amplitude == amplitude,
            r.waveform == waveform,
            r.effects == effects,
            r.timeline.clips@ == Seq::<crate::timeline::Clip<S>>::empty(),
            r.mixer.tracks@ == Seq::<Track<S>>::empty(),
    {
        Synthesizer {
            frequency_left: frequency,
            frequency_right: frequency,
            amplitude,
            waveform,
            effects,
            timeline: Timeline::new(),
            mixer: Mixer::new(),
        }
    }

    /// The frequency that the direct tone plays on one channel.
    pub fn channel_frequency(&self, is_left: bool) -> (r: S)
        ensures
            r == if is_left { self.frequency_left } else { self.frequency_right },
    {
        if is_left {
            self.frequency_left
        } else {
            self.frequency_right
        }
    }

    /// Applies the fields of a preset that could be read: a field given as
    /// `None` leaves its parameter as it was. The frequency goes to both
    /// channels.
    pub fn apply_preset(&mut self, frequency: Option<S>, amplitude: Option<S>, waveform: Option<Waveform>)
        ensures
            final(self).frequency_left == match frequency {
                Some(f) => f,
                None => old(self).frequency_left,
            },
            final(self).frequency_right == match frequency {
                Some(f) => f,
                None => old(self).frequency_right,
            },
            final(self).amplitude == match amplitude {
                Some(a) => a,
                None => old(self).amplitude,
            },
            final(self).waveform == match waveform {
                Some(w) => w,
                None => old(self).waveform,
            },
            final(self).same_parts(*old(self)),
    {
        if let Some(f) = frequency {
            self.frequency_left = f;
            self.frequency_right = f;
        }
        if let Some(a) = amplitude {
            self.amplitude = a;
        }
        if let Some(w) = waveform {
            self.waveform = w;
        }
    }
}

} // verus!
