//! Lowering the sound of other programs while the assistant speaks or listens.

use crate::speakstream::SpeakStream;
use vstd::prelude::*;

verus! {

/// Lowers the sound of other programs.
pub trait SpeakStreamExt {
    /// From here on other programs are to be less loud.
    fn start_audio_ducking(&self);

    /// From here on other programs are to be as loud as before.
    fn stop_audio_ducking(&self);
}

impl SpeakStreamExt for SpeakStream {
    /// A `SpeakStream` has no part in how loud other programs are.
    fn start_audio_ducking(&self) {
    }

    /// A `SpeakStream` has no part in how loud other programs are.
    fn stop_audio_ducking(&self) {
    }
}

} // verus!
