//! What the logic needs to know of a sound or data file: its kind, the
//! encoding of its samples and its format. The file itself is read
//! elsewhere; these are the plain values taken from it.

use vstd::prelude::*;

verus! {

/// The kind of file a sound-filing-system file holds.
#[derive(Debug, Clone, Copy, PartialEq, Eq, Structural)]
pub enum FileKindTag {
    Wave,
    Analysis,
    Pitch,
    Transposition,
    Formant,
    Envelope,
}

/// How the samples of a file are encoded: the two encodings the sample
/// commands handle, or any other.
#[derive(Debug, Clone, Copy, PartialEq, Eq, Structural)]
pub enum SampleKind {
    Short16,
    Float32,
    Other,
}

/// A file's kind, sample encoding, channel count and sample rate.
#[derive(Debug, Clone, Copy, PartialEq, Eq, Structural)]
pub struct SoundFormat {
    pub kind: FileKindTag,
    pub sample: SampleKind,
    pub channels: u16,
    pub sample_rate: u32,
}

} // verus!
