//! Audio capture: source selection, configuration, and the capability
//! contract of a capture backend.

use vstd::prelude::*;
use crate::audio::types::{AudioFrame, ChannelLayout, SampleFormat};
use crate::error::Error;

verus! {

/// What the audio capture listens to.
#[derive(Debug, Clone, PartialEq, Eq)]
pub enum AudioSource {
    /// Everything the desktop plays (the mixer's monitor).
    Desktop,
    /// One application, by name.
    Application(String),
    /// One media-graph node, by identifier.
    NodeId(u32),
    /// The default input device.
    DefaultInput,
    /// The default output device's monitor.
    DefaultOutput,
}

impl Default for AudioSource {
    fn default() -> (r: AudioSource)
        ensures
            r == AudioSource::Desktop,
    {
        AudioSource::Desktop
    }
}

/// Audio capture configuration.
#[derive(Debug, Clone)]
pub struct AudioCaptureConfig {
    /// Source to capture.
    pub source: AudioSource,
    /// Sample rate in hertz.
    pub sample_rate: u32,
    /// Channel layout.
    pub channels: ChannelLayout,
    /// Sample format delivered to the encoder.
    pub format: SampleFormat,
    /// Buffer size in samples.
    pub buffer_size: u32,
}

impl Default for AudioCaptureConfig {
    fn default() -> (r: AudioCaptureConfig)
        ensures
            r.source == AudioSource::Desktop,
            r.sample_rate == 48000,
            r.channels == ChannelLayout::Stereo,
            r.format == SampleFormat::F32,
            r.buffer_size == 1024,
    {
        AudioCaptureConfig {
            source: AudioSource::Desktop,
            sample_rate: 48000,
            channels: ChannelLayout::Stereo,
            format: SampleFormat::F32,
            buffer_size: 1024,
        }
    }
}

/// Capability contract every audio capture backend offers.
pub trait AudioCapture {
    /// Start delivering frames.
    fn start(&mut self) -> Result<(), Error>;

    /// Stop the session.
    fn stop(&mut self) -> Result<(), Error>;

    /// The next captured frame, a timeout, or the end of the session.
    fn next_frame(&mut self) -> Result<AudioFrame, Error>;

    /// Whether a session is running.
    fn is_active(&self) -> bool;

    /// Negotiated sample rate.
    fn sample_rate(&self) -> u32;

    /// Negotiated channel count.
    fn channels(&self) -> u32;
}

/// The audio sources this engine knows how to open.
pub fn list_sources() -> (r: Vec<AudioSource>)
    ensures
        r@.len() == 3,
        r@[0] == AudioSource::Desktop,
        r@[1] == AudioSource::DefaultInput,
        r@[2] == AudioSource::DefaultOutput,
{
    let mut sources: Vec<AudioSource> = Vec::new();
    sources.push(AudioSource::Desktop);
    sources.push(AudioSource::DefaultInput);
    sources.push(AudioSource::DefaultOutput);
    sources
}

} // verus!
