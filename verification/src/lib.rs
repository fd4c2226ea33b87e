//! A Morse-code training library built around the Koch method.
//!
//! The library covers the parts of the trainer with algorithmic content: the
//! Koch curriculum and its dot/dash pattern map, the lesson text generator,
//! the Morse timing model with Farnsworth spacing, the audio block
//! synthesizer, the accuracy scorer, and the session state machine.
//! Terminal rendering, keyboard dispatch, audio playback and on-disk score
//! persistence are thin wrappers that live outside the library.

use vstd::prelude::*;

pub mod curriculum;
pub mod timing;
pub mod scoring;
pub mod lesson;
pub mod audio;
pub mod scores;
pub mod session;

verus! {

/// Errors surfaced by the library.
///
/// An unknown character in a text to synthesize is not an error: such
/// characters are skipped silently. A persistence failure belongs to the
/// external score store, not to this library.
#[derive(Clone, Copy, Debug, PartialEq, Eq, Structural)]
pub enum MorseError {
    /// A lesson index of zero, or one past the last lesson.
    InvalidLesson,
    /// A speed of zero, or an effective speed above the character speed.
    InvalidSpeedConfiguration,
}

} // verus!
