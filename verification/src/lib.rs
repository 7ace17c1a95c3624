//! The discrete core of a polyphonic synthesizer engine.
//!
//! [`engine::Synthesizer`] is the engine: it takes notes, parameters,
//! wavetables and presets and renders blocks of audio. The other modules
//! are its parts. Everything here is about structure rather than signal:
//! in which order the frames of a block run, which voices are alive and in
//! what order, which stage each envelope is in, where the cursors of the
//! delay lines stand, which source slots a resampled wavetable entry is
//! blended from, which control a parameter name reaches, which range and
//! starting value the control has, and what a preset carries. The sample
//! arithmetic itself is left to the caller, so the containers are generic
//! over the sample type and the loops take the arithmetic as a function.

pub mod controls;
pub mod engine;
pub mod envelope;
pub mod params;
pub mod preset;
pub mod ring;
pub mod rules;
pub mod text;
pub mod voices;
pub mod waveform;
pub mod wavetable;
