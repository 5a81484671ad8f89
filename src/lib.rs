//! Control state and file framing for a small audio workstation.
//!
//! The numeric scalar used for times, frequencies and levels is a type
//! parameter `S` throughout. This library holds the parameters, the clips and
//! the tracks, decides which tracks are heard, and frames presets and WAV
//! files; selecting the clips that sound at a given time and evaluating
//! waveforms on `S` is left to the caller.

pub mod effects;
pub mod frame;
pub mod mixer;
pub mod preset;
pub mod synthesizer;
pub mod timeline;
pub mod waveform;
pub mod wav;
