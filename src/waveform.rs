//! The four waveform shapes and their numbering in presets.

use vstd::prelude::*;

verus! {

/// The shape of a periodic signal.
#[derive(Clone, Copy, PartialEq, Eq, Structural, Debug)]
pub enum Waveform {
    Sine,
    Square,
    Triangle,
    Sawtooth,
}

impl Waveform {
    /// Position of the waveform in the preset encoding.
    pub open spec fn index_spec(self) -> nat {
        match self {
            Waveform::Sine => 0,
            Waveform::Square => 1,
            Waveform::Triangle => 2,
            Waveform::Sawtooth => 3,
        }
    }

    /// The waveform stored at position `i` of the preset encoding, if any.
    pub open spec fn from_index_spec(i: int) -> Option<Waveform> {
        if i == 0 {
            Some(Waveform::Sine)
        } else if i == 1 {
            Some(Waveform::Square)
        } else if i == 2 {
            Some(Waveform::Triangle)
        } else if i == 3 {
            Some(Waveform::Sawtooth)
        } else {
            None
        }
    }

    pub fn index(self) -> (r: u8)
        ensures
            r == self.index_spec(),
    {
        match self {
            Waveform::Sine => 0,
            Waveform::Square => 1,
            Waveform::Triangle => 2,
            Waveform::Sawtooth => 3,
        }
    }

    pub fn from_index(i: u8) -> (r: Option<Waveform>)
        ensures
            r == Self::from_index_spec(i as int),
    {
        match i {
            0 => Some(Waveform::Sine),
            1 => Some(Waveform::Square),
            2 => Some(Waveform::Triangle),
            3 => Some(Waveform::Sawtooth),
            _ => None,
        }
    }
}

/// Every waveform is recovered from its preset index, and exactly the indices
/// 0 to 3 name a waveform.
pub proof fn lemma_index_round_trip(w: Waveform, i: int)
    ensures
        Waveform::from_index_spec(w.index_spec() as int) == Some(w),
        Waveform::from_index_spec(i) is Some <==> 0 <= i <= 3,
        Waveform::from_index_spec(i) matches Some(v) ==> v.index_spec() == i,
{
}

} // verus!
