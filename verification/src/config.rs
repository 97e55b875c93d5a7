//! Capture and encoder configuration, with the named presets that map
//! one use case to a complete encoder setup.

use vstd::prelude::*;
use crate::encode::Codec;
use crate::processing::hdr::spec_hdr10;
use crate::processing::HdrConfig;
use crate::types::{FrameFormat, Framerate, Resolution};

verus! {

/// Capture backend selection.
#[derive(Debug, Clone, Copy, PartialEq, Eq, Structural)]
pub enum CaptureBackend {
    /// Pick the best backend for the running session.
    Auto,
    /// Desktop portal screencast (the Wayland default).
    Portal,
    /// Direct media-graph capture.
    PipeWire,
    /// Zero-copy DMA-BUF export.
    WlrExport,
}

impl Default for CaptureBackend {
    fn default() -> (r: CaptureBackend)
        ensures
            r == CaptureBackend::Auto,
    {
        CaptureBackend::Auto
    }
}

/// Capture configuration.
#[derive(Debug, Clone)]
pub struct CaptureConfig {
    /// Target framerate asked of the compositor.
    pub framerate: Framerate,
    /// Whether the cursor is composited into the capture.
    pub show_cursor: bool,
    /// Whether system audio is captured alongside.
    pub capture_audio: bool,
    /// Preferred capture backend.
    pub backend: CaptureBackend,
    /// Whether to negotiate zero-copy buffers when available.
    pub prefer_dmabuf: bool,
}

impl Default for CaptureConfig {
    fn default() -> (r: CaptureConfig)
        ensures
            r.framerate.num == 60 && r.framerate.den == 1,
            r.show_cursor,
            !r.capture_audio,
            r.backend == CaptureBackend::Auto,
            r.prefer_dmabuf,
    {
        CaptureConfig {
            framerate: Framerate { num: 60, den: 1 },
            show_cursor: true,
            capture_audio: false,
            backend: CaptureBackend::Auto,
            prefer_dmabuf: true,
        }
    }
}

impl CaptureConfig {
    pub fn with_fps(self, fps: u32) -> (r: CaptureConfig)
        ensures
            r.framerate.num == fps && r.framerate.den == 1,
            r.show_cursor == self.show_cursor,
            r.capture_audio == self.capture_audio,
            r.backend == self.backend,
            r.prefer_dmabuf == self.prefer_dmabuf,
    {
        CaptureConfig { framerate: Framerate { num: fps, den: 1 }, ..self }
    }

    pub fn with_show_cursor(self, show: bool) -> (r: CaptureConfig)
        ensures
            r.show_cursor == show,
            r.framerate == self.framerate,
            r.capture_audio == self.capture_audio,
            r.backend == self.backend,
            r.prefer_dmabuf == self.prefer_dmabuf,
    {
        CaptureConfig { show_cursor: show, ..self }
    }

    pub fn with_backend(self, backend: CaptureBackend) -> (r: CaptureConfig)
        ensures
            r.backend == backend,
            r.framerate == self.framerate,
            r.show_cursor == self.show_cursor,
            r.capture_audio == self.capture_audio,
            r.prefer_dmabuf == self.prefer_dmabuf,
    {
        CaptureConfig { backend, ..self }
    }
}

/// Rate-control discipline for the encoder.
#[derive(Debug, Clone, Copy, PartialEq, Eq, Structural)]
pub enum RateControl {
    /// Constant bitrate.
    Cbr,
    /// Variable bitrate around a target.
    Vbr,
    /// Fixed quantization parameter.
    Cqp { qp: u8 },
    /// Constant rate factor (quality target).
    Crf { crf: u8 },
}

impl Default for RateControl {
    fn default() -> (r: RateControl)
        ensures
            r == RateControl::Vbr,
    {
        RateControl::Vbr
    }
}

/// Encoder speed/quality preset.
#[derive(Debug, Clone, Copy, PartialEq, Eq, Structural)]
pub enum EncoderPreset {
    Fastest,
    Fast,
    Medium,
    Slow,
    Slowest,
}

impl EncoderPreset {
    /// The hardware encoder's preset name for this speed.
    pub fn to_nvenc_preset(&self) -> (r: &'static str)
        ensures
            *self == EncoderPreset::Fastest ==> r@ == "p1"@,
            *self == EncoderPreset::Fast ==> r@ == "p3"@,
            *self == EncoderPreset::Medium ==> r@ == "p4"@,
            *self == EncoderPreset::Slow ==> r@ == "p5"@,
            *self == EncoderPreset::Slowest ==> r@ == "p7"@,
    {
        match self {
            EncoderPreset::Fastest => "p1",
            EncoderPreset::Fast => "p3",
            EncoderPreset::Medium => "p4",
            EncoderPreset::Slow => "p5",
            EncoderPreset::Slowest => "p7",
        }
    }
}

impl Default for EncoderPreset {
    fn default() -> (r: EncoderPreset)
        ensures
            r == EncoderPreset::Medium,
    {
        EncoderPreset::Medium
    }
}

/// Encoder tuning: the latency/quality regime, orthogonal to the
/// speed preset.
#[derive(Debug, Clone, Copy, PartialEq, Eq, Structural)]
pub enum EncoderTuning {
    /// Favour quality (the default).
    HighQuality,
    /// Favour latency for streaming.
    LowLatency,
    /// Minimum latency for realtime interaction.
    UltraLowLatency,
    /// Mathematically lossless.
    Lossless,
}

impl EncoderTuning {
    /// The hardware encoder's tuning name for this regime.
    pub fn to_nvenc_tuning(&self) -> (r: &'static str)
        ensures
            *self == EncoderTuning::HighQuality ==> r@ == "hq"@,
            *self == EncoderTuning::LowLatency ==> r@ == "ll"@,
            *self == EncoderTuning::UltraLowLatency ==> r@ == "ull"@,
            *self == EncoderTuning::Lossless ==> r@ == "lossless"@,
    {
        match self {
            EncoderTuning::HighQuality => "hq",
            EncoderTuning::LowLatency => "ll",
            EncoderTuning::UltraLowLatency => "ull",
            EncoderTuning::Lossless => "lossless",
        }
    }
}

impl Default for EncoderTuning {
    fn default() -> (r: EncoderTuning)
        ensures
            r == EncoderTuning::HighQuality,
    {
        EncoderTuning::HighQuality
    }
}

/// Encoder configuration.
#[derive(Debug, Clone)]
pub struct EncoderConfig {
    /// Video codec.
    pub codec: Codec,
    /// Output resolution; `None` keeps the input geometry.
    pub resolution: Option<Resolution>,
    /// Target framerate.
    pub framerate: Framerate,
    /// Target bitrate in kilobits per second.
    pub bitrate_kbps: u32,
    /// Peak bitrate for variable-rate control.
    pub max_bitrate_kbps: Option<u32>,
    /// Rate-control discipline.
    pub rate_control: RateControl,
    /// Speed/quality preset.
    pub preset: EncoderPreset,
    /// Latency/quality tuning.
    pub tuning: EncoderTuning,
    /// Keyframe interval in frames.
    pub gop_size: u32,
    /// Number of bidirectional frames between references.
    pub b_frames: u32,
    /// Lookahead depth in frames, when enabled.
    pub lookahead: Option<u32>,
    /// Pixel format handed to the backend.
    pub pixel_format: FrameFormat,
    /// Codec-specific profile name.
    pub profile: Option<String>,
    /// Codec-specific level name.
    pub level: Option<String>,
    /// HDR configuration; `None` encodes SDR.
    pub hdr: Option<HdrConfig>,
}

/// The fields of `EncoderConfig` that every named preset leaves at
/// their default values.
pub open spec fn spec_encoder_config_common(c: EncoderConfig) -> bool {
    &&& c.max_bitrate_kbps is None
    &&& c.rate_control == RateControl::Vbr
    &&& c.level is None
}

impl Default for EncoderConfig {
    fn default() -> (r: EncoderConfig)
        ensures
            r.codec == Codec::H264,
            r.resolution is None,
            r.framerate.num == 60 && r.framerate.den == 1,
            r.bitrate_kbps == 6000,
            r.max_bitrate_kbps is None,
            r.rate_control == RateControl::Vbr,
            r.preset == EncoderPreset::Medium,
            r.tuning == EncoderTuning::HighQuality,
            r.gop_size == 120,
            r.b_frames == 2,
            r.lookahead is None,
            r.pixel_format == FrameFormat::Nv12,
            r.profile is None,
            r.level is None,
            r.hdr is None,
    {
        EncoderConfig {
            codec: Codec::H264,
            resolution: None,
            framerate: Framerate { num: 60, den: 1 },
            bitrate_kbps: 6000,
            max_bitrate_kbps: None,
            rate_control: RateControl::Vbr,
            preset: EncoderPreset::Medium,
            tuning: EncoderTuning::HighQuality,
            gop_size: 120,
            b_frames: 2,
            lookahead: None,
            pixel_format: FrameFormat::Nv12,
            profile: None,
            level: None,
            hdr: None,
        }
    }
}

impl EncoderConfig {
    pub fn with_codec(self, codec: Codec) -> (r: EncoderConfig)
        ensures
            r == (EncoderConfig { codec, ..self }),
    {
        EncoderConfig { codec, ..self }
    }

    pub fn with_resolution(self, width: u32, height: u32) -> (r: EncoderConfig)
        ensures
            r == (EncoderConfig { resolution: Some(Resolution { width, height }), ..self }),
    {
        EncoderConfig { resolution: Some(Resolution { width, height }), ..self }
    }

    pub fn with_bitrate_kbps(self, bitrate: u32) -> (r: EncoderConfig)
        ensures
            r == (EncoderConfig { bitrate_kbps: bitrate, ..self }),
    {
        EncoderConfig { bitrate_kbps: bitrate, ..self }
    }

    pub fn with_framerate(self, fps: u32) -> (r: EncoderConfig)
        ensures
            r == (EncoderConfig { framerate: Framerate { num: fps, den: 1u32 }, ..self }),
    {
        EncoderConfig { framerate: Framerate { num: fps, den: 1 }, ..self }
    }

    pub fn with_preset(self, preset: EncoderPreset) -> (r: EncoderConfig)
        ensures
            r == (EncoderConfig { preset, ..self }),
    {
        EncoderConfig { preset, ..self }
    }

    pub fn with_rate_control(self, rc: RateControl) -> (r: EncoderConfig)
        ensures
            r == (EncoderConfig { rate_control: rc, ..self }),
    {
        EncoderConfig { rate_control: rc, ..self }
    }

    pub fn with_gop_size(self, gop: u32) -> (r: EncoderConfig)
        ensures
            r == (EncoderConfig { gop_size: gop, ..self }),
    {
        EncoderConfig { gop_size: gop, ..self }
    }

    pub fn with_tuning(self, tuning: EncoderTuning) -> (r: EncoderConfig)
        ensures
            r == (EncoderConfig { tuning, ..self }),
    {
        EncoderConfig { tuning, ..self }
    }

    /// Enable HDR10: PQ transfer and a 10-bit pixel format.
    pub fn with_hdr10(self) -> (r: EncoderConfig)
        ensures
            r.hdr == Some(spec_hdr10()),
            r.pixel_format == FrameFormat::P010,
            r.codec == self.codec,
            r.resolution == self.resolution,
            r.framerate == self.framerate,
            r.bitrate_kbps == self.bitrate_kbps,
            r.gop_size == self.gop_size,
            r.tuning == self.tuning,
            r.preset == self.preset,
    {
        EncoderConfig { hdr: Some(HdrConfig::hdr10()), pixel_format: FrameFormat::P010, ..self }
    }

    /// Enable HDR with a caller-chosen configuration; depths of 10 bits
    /// and up switch the pixel format to P010.
    pub fn with_hdr(self, hdr_config: HdrConfig) -> (r: EncoderConfig)
        ensures
            r.hdr == Some(hdr_config),
            hdr_config.bit_depth >= 10 ==> r.pixel_format == FrameFormat::P010,
            hdr_config.bit_depth < 10 ==> r.pixel_format == self.pixel_format,
            r.codec == self.codec,
            r.resolution == self.resolution,
            r.framerate == self.framerate,
            r.bitrate_kbps == self.bitrate_kbps,
            r.gop_size == self.gop_size,
            r.tuning == self.tuning,
            r.preset == self.preset,
    {
        let pixel_format: FrameFormat = if hdr_config.bit_depth >= 10 {
            FrameFormat::P010
        } else {
            self.pixel_format
        };
        EncoderConfig { hdr: Some(hdr_config), pixel_format, ..self }
    }

    /// Enable HLG HDR: hybrid log-gamma and a 10-bit pixel format.
    pub fn with_hlg(self) -> (r: EncoderConfig)
        ensures
            r.hdr matches Some(h) && h.transfer == crate::processing::TransferFunction::Hlg
                && h.bit_depth == 10,
            r.pixel_format == FrameFormat::P010,
            r.codec == self.codec,
            r.resolution == self.resolution,
            r.framerate == self.framerate,
            r.bitrate_kbps == self.bitrate_kbps,
            r.gop_size == self.gop_size,
            r.tuning == self.tuning,
            r.preset == self.preset,
    {
        EncoderConfig { hdr: Some(HdrConfig::hlg()), pixel_format: FrameFormat::P010, ..self }
    }

    /// Whether this configuration encodes high dynamic range.
    pub fn is_hdr(&self) -> (r: bool)
        ensures
            r == match self.hdr {
                Some(h) => h.transfer != crate::processing::TransferFunction::Sdr,
                None => false,
            },
    {
        match &self.hdr {
            Some(h) => h.is_hdr(),
            None => false,
        }
    }

    /// A field-by-field copy of this configuration.
    pub fn duplicate(&self) -> (r: EncoderConfig)
        ensures
            r == *self,
    {
        EncoderConfig {
            codec: self.codec,
            resolution: self.resolution,
            framerate: self.framerate,
            bitrate_kbps: self.bitrate_kbps,
            max_bitrate_kbps: self.max_bitrate_kbps,
            rate_control: self.rate_control,
            preset: self.preset,
            tuning: self.tuning,
            gop_size: self.gop_size,
            b_frames: self.b_frames,
            lookahead: self.lookahead,
            pixel_format: self.pixel_format,
            profile: match &self.profile {
                Some(p) => Some(p.clone()),
                None => None,
            },
            level: match &self.level {
                Some(l) => Some(l.clone()),
                None => None,
            },
            hdr: self.hdr,
        }
    }

    /// Expand a named preset into a full configuration; the table below
    /// mirrors the engine's published preset list.
    pub fn from_preset(preset: Preset) -> (r: EncoderConfig)
        ensures
            spec_encoder_config_common(r),
            preset == Preset::Discord720p ==> {
                &&& r.codec == Codec::H264
                &&& r.resolution == Some(Resolution { width: 1280u32, height: 720u32 })
                &&& r.framerate == (Framerate { num: 30u32, den: 1u32 })
                &&& r.bitrate_kbps == 3000
                &&& r.preset == EncoderPreset::Fast
                &&& r.tuning == EncoderTuning::LowLatency
                &&& r.gop_size == 60
                &&& r.b_frames == 2
                &&& r.lookahead is None
                &&& r.pixel_format == FrameFormat::Nv12
                &&& r.profile is None
                &&& r.hdr is None
            },
            preset == Preset::Stream1080p60 ==> {
                &&& r.codec == Codec::H264
                &&& r.resolution == Some(Resolution { width: 1920u32, height: 1080u32 })
                &&& r.framerate == (Framerate { num: 60u32, den: 1u32 })
                &&& r.bitrate_kbps == 6000
                &&& r.preset == EncoderPreset::Medium
                &&& r.tuning == EncoderTuning::HighQuality
                &&& r.gop_size == 120
                &&& r.b_frames == 2
                &&& r.lookahead is None
                &&& r.pixel_format == FrameFormat::Nv12
                &&& r.profile is None
                &&& r.hdr is None
            },
            preset == Preset::Quality1440p60 ==> {
                &&& r.codec == Codec::Hevc
                &&& r.resolution == Some(Resolution { width: 2560u32, height: 1440u32 })
                &&& r.framerate == (Framerate { num: 60u32, den: 1u32 })
                &&& r.bitrate_kbps == 12000
                &&& r.preset == EncoderPreset::Slow
                &&& r.tuning == EncoderTuning::HighQuality
                &&& r.gop_size == 120
                &&& r.b_frames == 2
                &&& r.lookahead is None
                &&& r.pixel_format == FrameFormat::Nv12
                &&& r.profile is None
                &&& r.hdr is None
            },
            preset == Preset::Gaming1440p120 ==> {
                &&& r.codec == Codec::Hevc
                &&& r.resolution == Some(Resolution { width: 2560u32, height: 1440u32 })
                &&& r.framerate == (Framerate { num: 120u32, den: 1u32 })
                &&& r.bitrate_kbps == 15000
                &&& r.preset == EncoderPreset::Fast
                &&& r.tuning == EncoderTuning::LowLatency
                &&& r.gop_size == 240
                &&& r.b_frames == 2
                &&& r.lookahead is None
                &&& r.pixel_format == FrameFormat::Nv12
                &&& r.profile is None
                &&& r.hdr is None
            },
            preset == Preset::Ultra4K60 ==> {
                &&& r.codec == Codec::Av1
                &&& r.resolution == Some(Resolution { width: 3840u32, height: 2160u32 })
                &&& r.framerate == (Framerate { num: 60u32, den: 1u32 })
                &&& r.bitrate_kbps == 25000
                &&& r.preset == EncoderPreset::Slow
                &&& r.tuning == EncoderTuning::HighQuality
                &&& r.gop_size == 120
                &&& r.b_frames == 2
                &&& r.lookahead is None
                &&& r.pixel_format == FrameFormat::Nv12
                &&& r.profile is None
                &&& r.hdr is None
            },
            preset == Preset::Maximum4K120 ==> {
                &&& r.codec == Codec::Av1
                &&& r.resolution == Some(Resolution { width: 3840u32, height: 2160u32 })
                &&& r.framerate == (Framerate { num: 120u32, den: 1u32 })
                &&& r.bitrate_kbps == 35000
                &&& r.preset == EncoderPreset::Medium
                &&& r.tuning == EncoderTuning::HighQuality
                &&& r.gop_size == 240
                &&& r.b_frames == 2
                &&& r.lookahead is None
                &&& r.pixel_format == FrameFormat::Nv12
                &&& r.profile is None
                &&& r.hdr is None
            },
            preset == Preset::LowLatency ==> {
                &&& r.codec == Codec::H264
                &&& r.resolution is None
                &&& r.framerate == (Framerate { num: 60u32, den: 1u32 })
                &&& r.bitrate_kbps == 8000
                &&& r.preset == EncoderPreset::Fastest
                &&& r.tuning == EncoderTuning::UltraLowLatency
                &&& r.gop_size == 30
                &&& r.b_frames == 0
                &&& r.lookahead is None
                &&& r.pixel_format == FrameFormat::Nv12
                &&& r.profile is None
                &&& r.hdr is None
            },
            preset == Preset::Recording ==> {
                &&& r.codec == Codec::Hevc
                &&& r.resolution is None
                &&& r.framerate == (Framerate { num: 60u32, den: 1u32 })
                &&& r.bitrate_kbps == 50000
                &&& r.preset == EncoderPreset::Slowest
                &&& r.tuning == EncoderTuning::HighQuality
                &&& r.gop_size == 300
                &&& r.b_frames == 3
                &&& r.lookahead == Some(20u32)
                &&& r.pixel_format == FrameFormat::Nv12
                &&& r.profile is None
                &&& r.hdr is None
            },
            preset == Preset::Hdr10_4K60 ==> {
                &&& r.codec == Codec::Hevc
                &&& r.resolution == Some(Resolution { width: 3840u32, height: 2160u32 })
                &&& r.framerate == (Framerate { num: 60u32, den: 1u32 })
                &&& r.bitrate_kbps == 35000
                &&& r.preset == EncoderPreset::Slow
                &&& r.tuning == EncoderTuning::HighQuality
                &&& r.gop_size == 120
                &&& r.b_frames == 2
                &&& r.lookahead is None
                &&& r.pixel_format == FrameFormat::P010
                &&& (r.profile matches Some(p) && p@ == "main10"@)
                &&& r.hdr == Some(spec_hdr10())
            },
            preset == Preset::Hdr10_1440p60 ==> {
                &&& r.codec == Codec::Hevc
                &&& r.resolution == Some(Resolution { width: 2560u32, height: 1440u32 })
                &&& r.framerate == (Framerate { num: 60u32, den: 1u32 })
                &&& r.bitrate_kbps == 20000
                &&& r.preset == EncoderPreset::Slow
                &&& r.tuning == EncoderTuning::HighQuality
                &&& r.gop_size == 120
                &&& r.b_frames == 2
                &&& r.lookahead is None
                &&& r.pixel_format == FrameFormat::P010
                &&& (r.profile matches Some(p) && p@ == "main10"@)
                &&& r.hdr == Some(spec_hdr10())
            },
    {
        let base: EncoderConfig = EncoderConfig::default();
        match preset {
            Preset::Discord720p => EncoderConfig {
                codec: Codec::H264,
                resolution: Some(Resolution { width: 1280, height: 720 }),
                framerate: Framerate { num: 30, den: 1 },
                bitrate_kbps: 3000,
                preset: EncoderPreset::Fast,
                tuning: EncoderTuning::LowLatency,
                gop_size: 60,
                ..base
            },
            Preset::Stream1080p60 => EncoderConfig {
                codec: Codec::H264,
                resolution: Some(Resolution { width: 1920, height: 1080 }),
                framerate: Framerate { num: 60, den: 1 },
                bitrate_kbps: 6000,
                preset: EncoderPreset::Medium,
                tuning: EncoderTuning::HighQuality,
                gop_size: 120,
                ..base
            },
            Preset::Quality1440p60 => EncoderConfig {
                codec: Codec::Hevc,
                resolution: Some(Resolution { width: 2560, height: 1440 }),
                framerate: Framerate { num: 60, den: 1 },
                bitrate_kbps: 12000,
                preset: EncoderPreset::Slow,
                tuning: EncoderTuning::HighQuality,
                gop_size: 120,
                ..base
            },
            Preset::Gaming1440p120 => EncoderConfig {
                codec: Codec::Hevc,
                resolution: Some(Resolution { width: 2560, height: 1440 }),
                framerate: Framerate { num: 120, den: 1 },
                bitrate_kbps: 15000,
                preset: EncoderPreset::Fast,
                tuning: EncoderTuning::LowLatency,
                gop_size: 240,
                ..base
            },
            Preset::Ultra4K60 => EncoderConfig {
                codec: Codec::Av1,
                resolution: Some(Resolution { width: 3840, height: 2160 }),
                framerate: Framerate { num: 60, den: 1 },
                bitrate_kbps: 25000,
                preset: EncoderPreset::Slow,
                tuning: EncoderTuning::HighQuality,
                gop_size: 120,
                ..base
            },
            Preset::Maximum4K120 => EncoderConfig {
                codec: Codec::Av1,
                resolution: Some(Resolution { width: 3840, height: 2160 }),
                framerate: Framerate { num: 120, den: 1 },
                bitrate_kbps: 35000,
                preset: EncoderPreset::Medium,
                tuning: EncoderTuning::HighQuality,
                gop_size: 240,
                ..base
            },
            Preset::LowLatency => EncoderConfig {
                codec: Codec::H264,
                resolution: None,
                framerate: Framerate { num: 60, den: 1 },
                bitrate_kbps: 8000,
                preset: EncoderPreset::Fastest,
                tuning: EncoderTuning::UltraLowLatency,
                gop_size: 30,
                b_frames: 0,
                ..base
            },
            Preset::Recording => EncoderConfig {
                codec: Codec::Hevc,
                resolution: None,
                framerate: Framerate { num: 60, den: 1 },
                bitrate_kbps: 50000,
                preset: EncoderPreset::Slowest,
                tuning: EncoderTuning::HighQuality,
                gop_size: 300,
                b_frames: 3,
                lookahead: Some(20),
                ..base
            },
            Preset::Hdr10_4K60 => EncoderConfig {
                codec: Codec::Hevc,
                resolution: Some(Resolution { width: 3840, height: 2160 }),
                framerate: Framerate { num: 60, den: 1 },
                bitrate_kbps: 35000,
                preset: EncoderPreset::Slow,
                tuning: EncoderTuning::HighQuality,
                gop_size: 120,
                pixel_format: FrameFormat::P010,
                hdr: Some(HdrConfig::hdr10()),
                profile: Some("main10".to_owned()),
                ..base
            },
            Preset::Hdr10_1440p60 => EncoderConfig {
                codec: Codec::Hevc,
                resolution: Some(Resolution { width: 2560, height: 1440 }),
                framerate: Framerate { num: 60, den: 1 },
                bitrate_kbps: 20000,
                preset: EncoderPreset::Slow,
                tuning: EncoderTuning::HighQuality,
                gop_size: 120,
                pixel_format: FrameFormat::P010,
                hdr: Some(HdrConfig::hdr10()),
                profile: Some("main10".to_owned()),
                ..base
            },
        }
    }
}

/// Named presets for common capture scenarios.
#[derive(Debug, Clone, Copy, PartialEq, Eq, Structural)]
pub enum Preset {
    /// 720p at 30 fps, low bandwidth.
    Discord720p,
    /// 1080p at 60 fps streaming.
    Stream1080p60,
    /// 1440p at 60 fps, high quality.
    Quality1440p60,
    /// 1440p at 120 fps gaming.
    Gaming1440p120,
    /// 4K at 60 fps, ultra quality.
    Ultra4K60,
    /// 4K at 120 fps, the maximum.
    Maximum4K120,
    /// Native resolution, tuned for minimum latency.
    LowLatency,
    /// Native resolution recording at archival quality.
    Recording,
    /// HDR10 4K at 60 fps, 10-bit.
    Hdr10_4K60,
    /// HDR10 1440p at 60 fps, 10-bit.
    Hdr10_1440p60,
}

} // verus!
