//! Audio value types: sample formats, channel layouts, frames, packets
//! and codec parameters.

use vstd::prelude::*;

verus! {

/// Audio sample format.
#[derive(Debug, Clone, Copy, PartialEq, Eq, Hash, Structural)]
pub enum SampleFormat {
    /// 16-bit signed integer, interleaved.
    S16,
    /// 32-bit signed integer, interleaved.
    S32,
    /// 32-bit float, interleaved.
    F32,
    /// 16-bit signed integer, planar.
    S16P,
    /// 32-bit float, planar.
    F32P,
}

impl SampleFormat {
    /// Bytes per single sample.
    pub fn bytes_per_sample(&self) -> (r: usize)
        ensures
            (*self == SampleFormat::S16 || *self == SampleFormat::S16P) ==> r == 2,
            (*self == SampleFormat::S32 || *self == SampleFormat::F32 || *self
                == SampleFormat::F32P) ==> r == 4,
    {
        match self {
            SampleFormat::S16 | SampleFormat::S16P => 2,
            SampleFormat::S32 | SampleFormat::F32 | SampleFormat::F32P => 4,
        }
    }

    /// Whether channels live in separate planes.
    pub fn is_planar(&self) -> (r: bool)
        ensures
            r == (*self == SampleFormat::S16P || *self == SampleFormat::F32P),
    {
        matches!(self, SampleFormat::S16P | SampleFormat::F32P)
    }

    /// The media library's name for this sample format.
    pub fn ffmpeg_format(&self) -> (r: &'static str)
        ensures
            *self == SampleFormat::S16 ==> r@ == "s16"@,
            *self == SampleFormat::S32 ==> r@ == "s32"@,
            *self == SampleFormat::F32 ==> r@ == "flt"@,
            *self == SampleFormat::S16P ==> r@ == "s16p"@,
            *self == SampleFormat::F32P ==> r@ == "fltp"@,
    {
        match self {
            SampleFormat::S16 => "s16",
            SampleFormat::S32 => "s32",
            SampleFormat::F32 => "flt",
            SampleFormat::S16P => "s16p",
            SampleFormat::F32P => "fltp",
        }
    }
}

impl Default for SampleFormat {
    fn default() -> (r: SampleFormat)
        ensures
            r == SampleFormat::S16,
    {
        SampleFormat::S16
    }
}

/// Audio channel layout.
#[derive(Debug, Clone, Copy, PartialEq, Eq, Hash, Structural)]
pub enum ChannelLayout {
    /// One channel.
    Mono,
    /// Two channels.
    Stereo,
    /// Six channels (5.1 surround).
    Surround51,
    /// Eight channels (7.1 surround).
    Surround71,
}

impl ChannelLayout {
    /// Number of channels in this layout.
    pub fn channels(&self) -> (r: u32)
        ensures
            *self == ChannelLayout::Mono ==> r == 1,
            *self == ChannelLayout::Stereo ==> r == 2,
            *self == ChannelLayout::Surround51 ==> r == 6,
            *self == ChannelLayout::Surround71 ==> r == 8,
    {
        match self {
            ChannelLayout::Mono => 1,
            ChannelLayout::Stereo => 2,
            ChannelLayout::Surround51 => 6,
            ChannelLayout::Surround71 => 8,
        }
    }

    /// The media library's name for this layout.
    pub fn ffmpeg_layout(&self) -> (r: &'static str)
        ensures
            *self == ChannelLayout::Mono ==> r@ == "mono"@,
            *self == ChannelLayout::Stereo ==> r@ == "stereo"@,
            *self == ChannelLayout::Surround51 ==> r@ == "5.1"@,
            *self == ChannelLayout::Surround71 ==> r@ == "7.1"@,
    {
        match self {
            ChannelLayout::Mono => "mono",
            ChannelLayout::Stereo => "stereo",
            ChannelLayout::Surround51 => "5.1",
            ChannelLayout::Surround71 => "7.1",
        }
    }
}

impl Default for ChannelLayout {
    fn default() -> (r: ChannelLayout)
        ensures
            r == ChannelLayout::Stereo,
    {
        ChannelLayout::Stereo
    }
}

/// A raw audio frame: `samples` samples per channel in `format`.
#[derive(Debug)]
pub struct AudioFrame {
    /// Sample data.
    pub data: Vec<u8>,
    /// Samples per channel.
    pub samples: u32,
    /// Sample format.
    pub format: SampleFormat,
    /// Number of channels.
    pub channels: u32,
    /// Sample rate in hertz.
    pub sample_rate: u32,
    /// Presentation timestamp in microseconds.
    pub pts: i64,
    /// Duration in microseconds.
    pub duration: i64,
}

/// Bytes needed for one audio frame.
pub open spec fn spec_audio_frame_bytes(
    samples: int,
    channels: int,
    format: SampleFormat,
) -> int {
    samples * channels * (match format {
        SampleFormat::S16 => 2int,
        SampleFormat::S16P => 2int,
        SampleFormat::S32 => 4int,
        SampleFormat::F32 => 4int,
        SampleFormat::F32P => 4int,
    })
}

impl AudioFrame {
    /// Allocate a silent frame for the given shape.
    pub fn new(samples: u32, channels: u32, format: SampleFormat, sample_rate: u32) -> (r:
        AudioFrame)
        requires
            spec_audio_frame_bytes(samples as int, channels as int, format) <= usize::MAX,
        ensures
            r.data@.len() == spec_audio_frame_bytes(samples as int, channels as int, format),
            forall|i: int| 0 <= i < r.data@.len() ==> r.data@[i] == 0u8,
            r.samples == samples,
            r.format == format,
            r.channels == channels,
            r.sample_rate == sample_rate,
            r.pts == 0 && r.duration == 0,
    {
        let per_sample: u128 = match format {
            SampleFormat::S16 | SampleFormat::S16P => 2,
            SampleFormat::S32 | SampleFormat::F32 | SampleFormat::F32P => 4,
        };
        let size: usize = ((samples as u128) * (channels as u128) * per_sample) as usize;
        let mut data: Vec<u8> = Vec::new();
        data.resize(size, 0u8);
        AudioFrame { data, samples, format, channels, sample_rate, pts: 0, duration: 0 }
    }

    /// Take ownership of existing sample data.
    pub fn from_data(
        data: Vec<u8>,
        samples: u32,
        channels: u32,
        format: SampleFormat,
        sample_rate: u32,
    ) -> (r: AudioFrame)
        ensures
            r.data == data,
            r.samples == samples,
            r.format == format,
            r.channels == channels,
            r.sample_rate == sample_rate,
            r.pts == 0 && r.duration == 0,
    {
        AudioFrame { data, samples, format, channels, sample_rate, pts: 0, duration: 0 }
    }

    /// Duration in microseconds implied by the sample count and rate.
    pub fn calculated_duration_us(&self) -> (r: i64)
        requires
            self.sample_rate != 0,
        ensures
            r == self.samples as int * 1_000_000 / self.sample_rate as int,
    {
        (self.samples as i64 * 1_000_000) / self.sample_rate as i64
    }

    /// Bytes held in the sample buffer.
    pub fn size_bytes(&self) -> (r: usize)
        ensures
            r == self.data@.len(),
    {
        self.data.len()
    }
}

/// Everything a muxer needs to declare an audio stream.
#[derive(Debug, Clone)]
pub struct AudioParams {
    /// Audio codec of the elementary stream.
    pub codec: crate::audio::AudioCodec,
    /// Sample rate in hertz.
    pub sample_rate: u32,
    /// Number of channels.
    pub channels: u32,
    /// Channel layout.
    pub layout: ChannelLayout,
    /// Bitrate in bits per second.
    pub bitrate: u32,
    /// Codec-specific out-of-band headers.
    pub extradata: Vec<u8>,
}

impl Default for AudioParams {
    /// AAC stereo at 48 kHz and 192 kbps.
    fn default() -> (r: AudioParams)
        ensures
            r.codec == crate::audio::AudioCodec::Aac,
            r.sample_rate == 48000,
            r.channels == 2,
            r.layout == ChannelLayout::Stereo,
            r.bitrate == 192_000,
            r.extradata@.len() == 0,
    {
        AudioParams {
            codec: crate::audio::AudioCodec::Aac,
            sample_rate: 48000,
            channels: 2,
            layout: ChannelLayout::Stereo,
            bitrate: 192_000,
            extradata: Vec::new(),
        }
    }
}

/// An encoded audio packet.
#[derive(Debug)]
pub struct AudioPacket {
    /// Encoded payload.
    pub data: Vec<u8>,
    /// Presentation timestamp, in samples.
    pub pts: i64,
    /// Decode timestamp, in samples.
    pub dts: i64,
    /// Duration in the stream's time base.
    pub duration: i64,
}

impl AudioPacket {
    pub fn new(data: Vec<u8>, pts: i64, dts: i64) -> (r: AudioPacket)
        ensures
            r.data == data,
            r.pts == pts,
            r.dts == dts,
            r.duration == 0,
    {
        AudioPacket { data, pts, dts, duration: 0 }
    }

    /// Payload size in bytes.
    pub fn size(&self) -> (r: usize)
        ensures
            r == self.data@.len(),
    {
        self.data.len()
    }
}

} // verus!
