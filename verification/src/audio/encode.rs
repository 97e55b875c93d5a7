//! Audio encoding: codec identities, encoder configuration, and the
//! encoder capability contract.

use vstd::prelude::*;
use crate::audio::types::{AudioFrame, AudioPacket, AudioParams, ChannelLayout, SampleFormat};
use crate::error::Error;

verus! {

/// Supported audio codecs.
#[derive(Debug, Clone, Copy, PartialEq, Eq, Structural)]
pub enum AudioCodec {
    /// AAC: wide compatibility, the streaming default.
    Aac,
    /// Opus: best quality per bit.
    Opus,
    /// MP3: legacy compatibility.
    Mp3,
    /// FLAC: lossless.
    Flac,
}

impl AudioCodec {
    /// The media library's encoder name for this codec.
    pub fn encoder_name(&self) -> (r: &'static str)
        ensures
            *self == AudioCodec::Aac ==> r@ == "aac"@,
            *self == AudioCodec::Opus ==> r@ == "libopus"@,
            *self == AudioCodec::Mp3 ==> r@ == "libmp3lame"@,
            *self == AudioCodec::Flac ==> r@ == "flac"@,
    {
        match self {
            AudioCodec::Aac => "aac",
            AudioCodec::Opus => "libopus",
            AudioCodec::Mp3 => "libmp3lame",
            AudioCodec::Flac => "flac",
        }
    }

    /// Human-readable name.
    pub fn display_name(&self) -> (r: &'static str)
        ensures
            *self == AudioCodec::Aac ==> r@ == "AAC"@,
            *self == AudioCodec::Opus ==> r@ == "Opus"@,
            *self == AudioCodec::Mp3 ==> r@ == "MP3"@,
            *self == AudioCodec::Flac ==> r@ == "FLAC"@,
    {
        match self {
            AudioCodec::Aac => "AAC",
            AudioCodec::Opus => "Opus",
            AudioCodec::Mp3 => "MP3",
            AudioCodec::Flac => "FLAC",
        }
    }

    /// Recommended stereo bitrate in bits per second; zero for the
    /// lossless codec, whose rate is content-driven.
    pub fn recommended_bitrate(&self) -> (r: u32)
        ensures
            *self == AudioCodec::Aac ==> r == 192_000,
            *self == AudioCodec::Opus ==> r == 128_000,
            *self == AudioCodec::Mp3 ==> r == 320_000,
            *self == AudioCodec::Flac ==> r == 0,
    {
        match self {
            AudioCodec::Aac => 192_000,
            AudioCodec::Opus => 128_000,
            AudioCodec::Mp3 => 320_000,
            AudioCodec::Flac => 0,
        }
    }
}

impl Default for AudioCodec {
    fn default() -> (r: AudioCodec)
        ensures
            r == AudioCodec::Aac,
    {
        AudioCodec::Aac
    }
}

/// Audio encoder configuration.
#[derive(Debug, Clone)]
pub struct AudioEncoderConfig {
    /// Audio codec.
    pub codec: AudioCodec,
    /// Sample rate in hertz.
    pub sample_rate: u32,
    /// Channel layout.
    pub channels: ChannelLayout,
    /// Bitrate in bits per second.
    pub bitrate: u32,
    /// Sample format of the frames handed in.
    pub input_format: SampleFormat,
}

impl Default for AudioEncoderConfig {
    fn default() -> (r: AudioEncoderConfig)
        ensures
            r.codec == AudioCodec::Aac,
            r.sample_rate == 48000,
            r.channels == ChannelLayout::Stereo,
            r.bitrate == 192_000,
            r.input_format == SampleFormat::F32,
    {
        AudioEncoderConfig {
            codec: AudioCodec::Aac,
            sample_rate: 48000,
            channels: ChannelLayout::Stereo,
            bitrate: 192_000,
            input_format: SampleFormat::F32,
        }
    }
}

impl AudioEncoderConfig {
    /// Select a codec; a zero bitrate falls back to the codec's
    /// recommended rate.
    pub fn with_codec(self, codec: AudioCodec) -> (r: AudioEncoderConfig)
        ensures
            r.codec == codec,
            self.bitrate == 0 ==> r.bitrate == match codec {
                AudioCodec::Aac => 192_000u32,
                AudioCodec::Opus => 128_000u32,
                AudioCodec::Mp3 => 320_000u32,
                AudioCodec::Flac => 0u32,
            },
            self.bitrate != 0 ==> r.bitrate == self.bitrate,
            r.sample_rate == self.sample_rate,
            r.channels == self.channels,
            r.input_format == self.input_format,
    {
        let bitrate: u32 = if self.bitrate == 0 {
            codec.recommended_bitrate()
        } else {
            self.bitrate
        };
        AudioEncoderConfig { codec, bitrate, ..self }
    }

    pub fn with_sample_rate(self, rate: u32) -> (r: AudioEncoderConfig)
        ensures
            r == (AudioEncoderConfig { sample_rate: rate, ..self }),
    {
        AudioEncoderConfig { sample_rate: rate, ..self }
    }

    pub fn with_channels(self, channels: ChannelLayout) -> (r: AudioEncoderConfig)
        ensures
            r == (AudioEncoderConfig { channels, ..self }),
    {
        AudioEncoderConfig { channels, ..self }
    }

    pub fn with_bitrate(self, bitrate: u32) -> (r: AudioEncoderConfig)
        ensures
            r == (AudioEncoderConfig { bitrate, ..self }),
    {
        AudioEncoderConfig { bitrate, ..self }
    }
}

/// Capability contract every audio encoder backend offers.
pub trait AudioEncoder {
    /// Open the backend.
    fn init(&mut self) -> Result<(), Error>;

    /// Encode one frame; `None` means the backend is buffering.
    fn encode(&mut self, frame: &AudioFrame) -> Result<Option<AudioPacket>, Error>;

    /// Drain buffered packets at end of stream.
    fn flush(&mut self) -> Result<Vec<AudioPacket>, Error>;

    /// Counters for the running session.
    fn stats(&self) -> AudioEncoderStats;

    /// Stream parameters for the muxer, once the backend knows them.
    fn params(&self) -> Option<AudioParams>;
}

/// The state machine of one audio encoder session: it stamps frames
/// in samples — audio presentation time is a running sample count —
/// and publishes stream parameters once the backend is open.
pub struct AudioEncoderSession {
    /// Configuration of this session.
    pub config: AudioEncoderConfig,
    /// Whether the backend is open.
    pub initialized: bool,
    /// Samples per backend frame.
    pub frame_size: u32,
    /// Running presentation time, in samples.
    pub pts: i64,
    /// Frames that produced a packet.
    pub frames_encoded: u64,
    /// Bytes produced.
    pub bytes_output: u64,
}

impl AudioEncoderSession {
    /// Open a session over a stored configuration.
    pub fn new(config: AudioEncoderConfig) -> (r: AudioEncoderSession)
        ensures
            r.config == config,
            !r.initialized,
            r.frame_size == 1024,
            r.pts == 0,
            r.frames_encoded == 0,
            r.bytes_output == 0,
    {
        AudioEncoderSession {
            config,
            initialized: false,
            frame_size: 1024,
            pts: 0,
            frames_encoded: 0,
            bytes_output: 0,
        }
    }

    /// Note the backend's frame size once it is open; a backend that
    /// reports none keeps the default.
    pub fn on_opened(&mut self, reported_frame_size: u32)
        ensures
            final(self).initialized,
            reported_frame_size != 0 ==> final(self).frame_size == reported_frame_size,
            reported_frame_size == 0 ==> final(self).frame_size == 1024,
            final(self).pts == old(self).pts,
            final(self).config == old(self).config,
    {
        self.frame_size = if reported_frame_size == 0 {
            1024
        } else {
            reported_frame_size
        };
        self.initialized = true;
    }

    /// The stamp for the next frame of `samples` samples: the running
    /// sample count, which then advances by the frame.
    pub fn stamp_frame(&mut self, samples: u32) -> (r: i64)
        requires
            old(self).pts + samples <= i64::MAX,
        ensures
            r == old(self).pts,
            final(self).pts == old(self).pts + samples,
            final(self).initialized == old(self).initialized,
            final(self).config == old(self).config,
            final(self).frames_encoded == old(self).frames_encoded,
            final(self).bytes_output == old(self).bytes_output,
    {
        let stamp: i64 = self.pts;
        self.pts = self.pts + samples as i64;
        stamp
    }

    /// Account one packet the backend produced.
    pub fn on_packet(&mut self, size: usize)
        ensures
            final(self).frames_encoded as int == crate::output::sat_u64(
                old(self).frames_encoded as int + 1,
            ),
            final(self).bytes_output as int == crate::output::sat_u64(
                old(self).bytes_output as int + size as int,
            ),
            final(self).pts == old(self).pts,
            final(self).config == old(self).config,
            final(self).initialized == old(self).initialized,
    {
        self.frames_encoded = if self.frames_encoded < u64::MAX {
            self.frames_encoded + 1
        } else {
            u64::MAX
        };
        let size64: u64 = size as u64;
        self.bytes_output = if self.bytes_output <= u64::MAX - size64 {
            self.bytes_output + size64
        } else {
            u64::MAX
        };
    }

    /// Stream parameters for the muxer, from the configuration and the
    /// backend's out-of-band headers.
    pub fn params(&self, extradata: Vec<u8>) -> (r: AudioParams)
        ensures
            r.codec == self.config.codec,
            r.sample_rate == self.config.sample_rate,
            r.layout == self.config.channels,
            r.bitrate == self.config.bitrate,
            r.extradata == extradata,
            r.channels == match self.config.channels {
                ChannelLayout::Mono => 1u32,
                ChannelLayout::Stereo => 2u32,
                ChannelLayout::Surround51 => 6u32,
                ChannelLayout::Surround71 => 8u32,
            },
    {
        AudioParams {
            codec: self.config.codec,
            sample_rate: self.config.sample_rate,
            channels: self.config.channels.channels(),
            layout: self.config.channels,
            bitrate: self.config.bitrate,
            extradata,
        }
    }

    /// Counters for the running session.
    pub fn stats(&self) -> (r: AudioEncoderStats)
        ensures
            r.frames_encoded == self.frames_encoded,
            r.bytes_output == self.bytes_output,
    {
        AudioEncoderStats { frames_encoded: self.frames_encoded, bytes_output: self.bytes_output }
    }
}

/// Audio encoder session counters.
#[derive(Debug, Clone)]
pub struct AudioEncoderStats {
    /// Frames encoded.
    pub frames_encoded: u64,
    /// Bytes produced.
    pub bytes_output: u64,
}

impl Default for AudioEncoderStats {
    fn default() -> (r: AudioEncoderStats)
        ensures
            r.frames_encoded == 0,
            r.bytes_output == 0,
    {
        AudioEncoderStats { frames_encoded: 0, bytes_output: 0 }
    }
}

} // verus!
