//! Audio synthesis building blocks on lattice consonance theory: the
//! waveform and filter kinds, waveform-name parsing, preset lookup and the
//! sample layout of an ADSR envelope.

pub mod constraint_filter;
pub mod lattice_oscillator;
pub mod synth;
pub mod text;

pub use constraint_filter::FilterType;
pub use lattice_oscillator::{parse_shape, LatticeShape, UnknownShape};
pub use synth::{
    builtin_preset_names, builtin_voices, envelope_segment, envelope_segments, find_preset,
    unknown_preset_message, EnvelopeSegment, PresetVoice,
};
