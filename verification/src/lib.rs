//! A minimal single-voice MIDI synthesizer core.
//!
//! Incoming MIDI bytes are decoded into note events, a fixed table of 128
//! per-key note states tracks which keys have sounded, and a square-wave
//! tone generator renders the lowest-numbered active key into an
//! interleaved sample buffer. All pitch and waveform arithmetic is carried
//! out in integers: frequencies in millihertz and waveform levels as unit
//! amplitudes, which a host scales by its output gain.

pub mod lifecycle;
pub mod midi;
pub mod notes;
pub mod render;
pub mod pitch;
pub mod tone;
