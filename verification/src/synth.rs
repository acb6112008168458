//! `synth`: sound synthesis. Only `synth wave` is implemented; its
//! waveforms are floating-point work, done by the caller.

pub mod wave;
