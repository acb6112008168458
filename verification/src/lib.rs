//! Verified core of the CDP command-line sound-processing suite: argument
//! grammar, mode numbers, command tables, and the integer and text logic of
//! the `housekeep`, `sndinfo`, `pvoc` and `synth` programs.

pub mod cli;
pub mod data;
pub mod error;
pub mod housekeep;
pub mod mix;
pub mod params;
pub mod pvoc;
pub mod registry;
pub mod sndinfo;
pub mod sound;
pub mod synth;
pub mod text;
