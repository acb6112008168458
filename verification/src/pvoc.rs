//! `pvoc`: phase-vocoder analysis. The analysis itself is floating-point
//! work; what is here is its framing (how many frames a file gives) and the
//! resolution of the analysis parameters.

pub mod anal;
pub mod frames;
