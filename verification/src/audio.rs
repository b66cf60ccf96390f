//! Audio data types.  Sample allocation and voice scheduling are host
//! calls outside the library; here stand the plain values they exchange.

use vstd::prelude::*;

verus! {

/// Number of audio voices the host mixes.
pub const VOICE_COUNT: usize = 32;

/// A sample held by the host; the handle is assigned by the host's
/// allocator.
#[derive(Clone)]
pub struct AudioSample {
    pub handle: i32,
    pub samplerate: i32,
}

/// The schedulable per-voice parameters.
#[derive(Clone, Copy, Debug)]
pub enum AudioVoiceParam {
    Volume,
    Pitch,
    Detune,
    Pan,
    SampleData,
    Samplerate,
    LoopEnabled,
    LoopStart,
    LoopEnd,
    Reverb,
    FadeInDuration,
    FadeOutDuration,
    Start,
    Stop,
}

/// An audio operation failed on the host's side.
#[derive(Clone, Copy, Debug)]
pub struct AudioError;

} // verus!
