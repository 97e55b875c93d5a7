//! Audio capture and encoding: value types, configuration and the
//! capability contracts of the backends.

pub mod capture;
pub mod encode;
pub mod types;

pub use capture::{list_sources, AudioCapture, AudioCaptureConfig, AudioSource};
pub use encode::{AudioCodec, AudioEncoder, AudioEncoderConfig, AudioEncoderStats};
pub use types::{AudioFrame, AudioPacket, AudioParams, ChannelLayout, SampleFormat};

use vstd::prelude::*;

verus! {

/// The audio sources available without probing the system mixer.
pub fn list_audio_sources() -> (r: Vec<AudioSource>)
    ensures
        r@.len() == 3,
        r@[0] == AudioSource::Desktop,
        r@[1] == AudioSource::DefaultInput,
        r@[2] == AudioSource::DefaultOutput,
{
    capture::list_sources()
}

} // verus!
