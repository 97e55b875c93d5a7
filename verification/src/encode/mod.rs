//! Video encoding: codec identities, backend selection, encoder
//! capability reports, and the encoder session state machine.

pub mod amf;
pub mod nvenc;
pub mod qsv;
pub mod software;

use vstd::prelude::*;
use vstd::string::StringExecFns;
use crate::config::EncoderConfig;
use crate::error::Error;
use crate::types::{CodecParams, Frame, Packet, Resolution};

verus! {

/// Supported video codecs.
#[derive(Debug, Clone, Copy, PartialEq, Eq, Structural)]
pub enum Codec {
    /// H.264/AVC: widest compatibility.
    H264,
    /// H.265/HEVC: better compression.
    Hevc,
    /// AV1: best compression on recent hardware.
    Av1,
}

impl Codec {
    /// Name of the hardware encoder for this codec.
    pub fn nvenc_encoder_name(&self) -> (r: &'static str)
        ensures
            *self == Codec::H264 ==> r@ == "h264_nvenc"@,
            *self == Codec::Hevc ==> r@ == "hevc_nvenc"@,
            *self == Codec::Av1 ==> r@ == "av1_nvenc"@,
    {
        match self {
            Codec::H264 => "h264_nvenc",
            Codec::Hevc => "hevc_nvenc",
            Codec::Av1 => "av1_nvenc",
        }
    }

    /// Human-readable name.
    pub fn display_name(&self) -> (r: &'static str)
        ensures
            *self == Codec::H264 ==> r@ == "H.264 (AVC)"@,
            *self == Codec::Hevc ==> r@ == "H.265 (HEVC)"@,
            *self == Codec::Av1 ==> r@ == "AV1"@,
    {
        match self {
            Codec::H264 => "H.264 (AVC)",
            Codec::Hevc => "H.265 (HEVC)",
            Codec::Av1 => "AV1",
        }
    }

    /// Oldest GPU generation whose hardware encoder takes this codec.
    pub fn min_gpu_arch(&self) -> (r: &'static str)
        ensures
            *self == Codec::H264 ==> r@ == "Kepler (GTX 600+)"@,
            *self == Codec::Hevc ==> r@ == "Maxwell (GTX 900+)"@,
            *self == Codec::Av1 ==> r@ == "Ada Lovelace (RTX 4000+)"@,
    {
        match self {
            Codec::H264 => "Kepler (GTX 600+)",
            Codec::Hevc => "Maxwell (GTX 900+)",
            Codec::Av1 => "Ada Lovelace (RTX 4000+)",
        }
    }
}

impl Default for Codec {
    fn default() -> (r: Codec)
        ensures
            r == Codec::H264,
    {
        Codec::H264
    }
}

/// Capability contract every video encoder backend offers.
pub trait Encoder {
    /// Prepare the encoder; the backend context opens on the first
    /// frame, when the input geometry is known.
    fn init(&mut self) -> Result<(), Error>;

    /// Encode one frame; `None` means the backend is buffering.
    fn encode(&mut self, frame: &Frame) -> Result<Option<Packet>, Error>;

    /// Drain buffered packets at end of stream.
    fn flush(&mut self) -> Result<Vec<Packet>, Error>;

    /// Counters for the running session.
    fn stats(&self) -> EncoderStats;

    /// Stream parameters for the muxer, once the first packet exists.
    fn codec_params(&self) -> Option<CodecParams>;

    /// Store a new configuration; it takes effect on the next session.
    fn reconfigure(&mut self, config: &EncoderConfig) -> Result<(), Error>;
}

/// Encoder backend selection.
#[derive(Debug, Clone, Copy, PartialEq, Eq, Structural)]
pub enum EncoderBackend {
    /// Pick the best available backend: hardware ahead of software.
    Auto,
    /// Force the hardware encoder.
    Nvenc,
    /// Force the CPU encoders.
    Software,
}

impl Default for EncoderBackend {
    fn default() -> (r: EncoderBackend)
        ensures
            r == EncoderBackend::Auto,
    {
        EncoderBackend::Auto
    }
}

/// Resolve a backend request against what the system offers. The
/// automatic choice takes the hardware encoder when it supports the
/// codec, falls back to a capable software encoder, and fails exactly
/// when neither can encode the codec. Explicit choices stand.
pub fn select_encoder_backend(
    backend: EncoderBackend,
    nvenc_supports: bool,
    software_supports: bool,
) -> (r: Result<EncoderBackend, Error>)
    ensures
        backend == EncoderBackend::Nvenc ==> r == Ok::<EncoderBackend, Error>(EncoderBackend::Nvenc),
        backend == EncoderBackend::Software ==> r == Ok::<EncoderBackend, Error>(
            EncoderBackend::Software,
        ),
        backend == EncoderBackend::Auto ==> {
            &&& nvenc_supports ==> r == Ok::<EncoderBackend, Error>(EncoderBackend::Nvenc)
            &&& !nvenc_supports && software_supports ==> r == Ok::<EncoderBackend, Error>(
                EncoderBackend::Software,
            )
            &&& !nvenc_supports && !software_supports ==> (r matches Err(e)
                && e is CodecNotSupported)
        },
{
    match backend {
        EncoderBackend::Nvenc => Ok(EncoderBackend::Nvenc),
        EncoderBackend::Software => Ok(EncoderBackend::Software),
        EncoderBackend::Auto => {
            if nvenc_supports {
                Ok(EncoderBackend::Nvenc)
            } else if software_supports {
                Ok(EncoderBackend::Software)
            } else {
                Err(Error::CodecNotSupported(String::from_str("no backend encodes this codec")))
            }
        },
    }
}

/// Encoder session counters.
#[derive(Debug, Clone)]
pub struct EncoderStats {
    /// Frames that produced a packet.
    pub frames_encoded: u64,
    /// Bytes produced.
    pub bytes_output: u64,
    /// Bitrate over the running session in kilobits per second.
    pub current_bitrate_kbps: u64,
    /// Frames queued inside the backend.
    pub queue_depth: u32,
}

impl Default for EncoderStats {
    fn default() -> (r: EncoderStats)
        ensures
            r.frames_encoded == 0,
            r.bytes_output == 0,
            r.current_bitrate_kbps == 0,
            r.queue_depth == 0,
    {
        EncoderStats { frames_encoded: 0, bytes_output: 0, current_bitrate_kbps: 0, queue_depth: 0 }
    }
}

/// What a probe of the system's encoders found; the probing itself
/// talks to drivers and runs in the host program.
#[derive(Debug, Clone)]
pub struct EncoderProbe {
    /// Hardware encoder present.
    pub nvenc_available: bool,
    /// Hardware HEVC support.
    pub nvenc_hevc: bool,
    /// Hardware AV1 support.
    pub nvenc_av1: bool,
    /// GPU name, where a driver reported one.
    pub gpu_name: Option<String>,
    /// Driver version, where reported.
    pub driver_version: Option<String>,
    /// Software H.264 encoder present.
    pub x264: bool,
    /// Software HEVC encoder present.
    pub x265: bool,
    /// Software AV1 encoder present.
    pub svtav1: bool,
    /// CPU description, where known.
    pub cpu: Option<software::CpuInfo>,
}

/// Software encoder availability.
#[derive(Debug, Clone)]
pub struct SoftwareEncoderInfo {
    /// H.264 encoder present.
    pub x264: bool,
    /// HEVC encoder present.
    pub x265: bool,
    /// AV1 encoder present.
    pub svtav1: bool,
}

impl Default for SoftwareEncoderInfo {
    fn default() -> (r: SoftwareEncoderInfo)
        ensures
            !r.x264 && !r.x265 && !r.svtav1,
    {
        SoftwareEncoderInfo { x264: false, x265: false, svtav1: false }
    }
}

/// Report of the encoders available on this system.
#[derive(Debug, Clone)]
pub struct EncoderInfo {
    /// Hardware encoder present.
    pub nvenc_available: bool,
    /// Codecs the hardware encoder takes.
    pub nvenc_codecs: Vec<Codec>,
    /// GPU name, where known.
    pub gpu_name: Option<String>,
    /// Driver version, where known.
    pub driver_version: Option<String>,
    /// Hardware AV1 support.
    pub nvenc_av1: bool,
    /// Whether the GPU carries two encoder units.
    pub dual_encoder: bool,
    /// Software encoder availability.
    pub software: SoftwareEncoderInfo,
    /// CPU description, where known.
    pub cpu: Option<software::CpuInfo>,
}

/// Assemble the encoder report from a probe. The hardware codec list
/// holds H.264 always, then HEVC and AV1 as supported; a GPU of the
/// generations with two encoder units reports them.
pub fn get_info(probe: &EncoderProbe) -> (r: EncoderInfo)
    ensures
        r.nvenc_available == probe.nvenc_available,
        !probe.nvenc_available ==> r.nvenc_codecs@.len() == 0,
        probe.nvenc_available ==> r.nvenc_codecs@.len() >= 1 && r.nvenc_codecs@[0] == Codec::H264,
        probe.nvenc_available ==> (r.nvenc_codecs@.contains(Codec::Hevc) <==> probe.nvenc_hevc),
        probe.nvenc_available ==> (r.nvenc_codecs@.contains(Codec::Av1) <==> probe.nvenc_av1),
        r.nvenc_av1 == (probe.nvenc_available && probe.nvenc_av1),
        r.software.x264 == probe.x264,
        r.software.x265 == probe.x265,
        r.software.svtav1 == probe.svtav1,
        r.gpu_name == probe.gpu_name,
        r.driver_version == probe.driver_version,
        r.dual_encoder == nvenc::spec_dual_encoder_gpu(probe.gpu_name),
{
    let mut nvenc_codecs: Vec<Codec> = Vec::new();
    if probe.nvenc_available {
        nvenc_codecs.push(Codec::H264);
        if probe.nvenc_hevc {
            nvenc_codecs.push(Codec::Hevc);
        }
        if probe.nvenc_av1 {
            nvenc_codecs.push(Codec::Av1);
        }
    }
    proof {
        if probe.nvenc_available {
            if probe.nvenc_hevc {
                assert(nvenc_codecs@[1] == Codec::Hevc);
                assert(nvenc_codecs@.contains(Codec::Hevc));
            } else {
                assert forall|k: int| 0 <= k < nvenc_codecs@.len()
                    implies nvenc_codecs@[k] != Codec::Hevc by {}
            }
            if probe.nvenc_av1 {
                let ghost ai: int = if probe.nvenc_hevc { 2 } else { 1 };
                assert(nvenc_codecs@[ai] == Codec::Av1);
                assert(nvenc_codecs@.contains(Codec::Av1));
            } else {
                assert forall|k: int| 0 <= k < nvenc_codecs@.len()
                    implies nvenc_codecs@[k] != Codec::Av1 by {}
            }
        }
    }
    let dual = nvenc::has_dual_encoder(&probe.gpu_name);
    EncoderInfo {
        nvenc_available: probe.nvenc_available,
        nvenc_codecs,
        gpu_name: probe.gpu_name.clone(),
        driver_version: probe.driver_version.clone(),
        nvenc_av1: probe.nvenc_available && probe.nvenc_av1,
        dual_encoder: dual,
        software: SoftwareEncoderInfo {
            x264: probe.x264,
            x265: probe.x265,
            svtav1: probe.svtav1,
        },
        cpu: probe.cpu.clone(),
    }
}

impl EncoderInfo {
    /// Every codec some backend can encode: the hardware codec list
    /// extended in place by each software-only codec, so no codec is
    /// listed twice.
    pub fn supported_codecs(&self) -> (r: Vec<Codec>)
        ensures
            r@ == self.nvenc_codecs@ + (if self.software.x264 && !self.nvenc_codecs@.contains(
                Codec::H264,
            ) {
                seq![Codec::H264]
            } else {
                Seq::empty()
            }) + (if self.software.x265 && !self.nvenc_codecs@.contains(Codec::Hevc) {
                seq![Codec::Hevc]
            } else {
                Seq::empty()
            }) + (if self.software.svtav1 && !self.nvenc_codecs@.contains(Codec::Av1) {
                seq![Codec::Av1]
            } else {
                Seq::empty()
            }),
    {
        let mut codecs: Vec<Codec> = Vec::new();
        let total: usize = self.nvenc_codecs.len();
        let mut i: usize = 0;
        while i < total
            invariant
                0 <= i <= total,
                total == self.nvenc_codecs@.len(),
                codecs@ == self.nvenc_codecs@.subrange(0, i as int),
            decreases total - i,
        {
            proof {
                assert(self.nvenc_codecs@.subrange(0, i as int + 1) =~= self.nvenc_codecs@
                    .subrange(0, i as int).push(self.nvenc_codecs@[i as int]));
            }
            codecs.push(self.nvenc_codecs[i]);
            i = i + 1;
        }
        proof {
            assert(self.nvenc_codecs@.subrange(0, total as int) =~= self.nvenc_codecs@);
        }
        if self.software.x264 && !contains_codec(&self.nvenc_codecs, Codec::H264) {
            codecs.push(Codec::H264);
        }
        if self.software.x265 && !contains_codec(&self.nvenc_codecs, Codec::Hevc) {
            codecs.push(Codec::Hevc);
        }
        if self.software.svtav1 && !contains_codec(&self.nvenc_codecs, Codec::Av1) {
            codecs.push(Codec::Av1);
        }
        proof {
            assert(codecs@ =~= self.nvenc_codecs@ + (if self.software.x264
                && !self.nvenc_codecs@.contains(Codec::H264) {
                seq![Codec::H264]
            } else {
                Seq::empty()
            }) + (if self.software.x265 && !self.nvenc_codecs@.contains(Codec::Hevc) {
                seq![Codec::Hevc]
            } else {
                Seq::empty()
            }) + (if self.software.svtav1 && !self.nvenc_codecs@.contains(Codec::Av1) {
                seq![Codec::Av1]
            } else {
                Seq::empty()
            }));
        }
        codecs
    }

    /// Whether any backend can encode AV1.
    pub fn av1_support(&self) -> (r: bool)
        ensures
            r == (self.nvenc_av1 || self.software.svtav1),
    {
        self.nvenc_av1 || self.software.svtav1
    }
}

/// Whether two codec values are the same codec.
fn matches_codec(a: Codec, b: Codec) -> (r: bool)
    ensures
        r == (a == b),
{
    match (a, b) {
        (Codec::H264, Codec::H264) => true,
        (Codec::Hevc, Codec::Hevc) => true,
        (Codec::Av1, Codec::Av1) => true,
        _ => false,
    }
}

/// Whether `codecs` holds `c`.
fn contains_codec(codecs: &Vec<Codec>, c: Codec) -> (r: bool)
    ensures
        r == codecs@.contains(c),
{
    let total: usize = codecs.len();
    let mut i: usize = 0;
    while i < total
        invariant
            0 <= i <= total,
            total == codecs@.len(),
            forall|k: int| 0 <= k < i ==> codecs@[k] != c,
        decreases total - i,
    {
        if matches_codec(codecs[i], c) {
            return true;
        }
        i = i + 1;
    }
    false
}

/// Bitrate of a running session in kilobits per second: eight bits per
/// payload byte over the elapsed milliseconds, clamped at the counter
/// width; zero before any time has passed.
pub fn bitrate_kbps(bytes: u64, elapsed_ms: u64) -> (r: u64)
    ensures
        elapsed_ms == 0 ==> r == 0,
        elapsed_ms > 0 ==> r as int == crate::output::sat_u64(
            bytes as int * 8 / elapsed_ms as int,
        ),
{
    if elapsed_ms == 0 {
        return 0;
    }
    let total: u128 = (bytes as u128) * 8;
    let rate: u128 = total / (elapsed_ms as u128);
    if rate > 0xFFFF_FFFF_FFFF_FFFF {
        u64::MAX
    } else {
        rate as u64
    }
}

/// The lifecycle of one encoder session.
#[derive(Debug, Clone, Copy, PartialEq, Eq, Structural)]
pub enum EncoderState {
    /// Configuration stored; no backend context yet.
    Created,
    /// Geometry captured from the first frame; backend context open.
    Bound { input_width: u32, input_height: u32 },
    /// End of stream; the backend has been drained.
    Flushed,
}

/// Everything the backend context needs at open time, computed from
/// the configuration and the first frame's geometry.
#[derive(Debug, Clone, Copy, PartialEq, Eq, Structural)]
pub struct BackendInit {
    /// Encoded width.
    pub width: u32,
    /// Encoded height.
    pub height: u32,
    /// Whether a scaler must stand ahead of the backend.
    pub needs_scaler: bool,
    /// Time base numerator.
    pub time_base_num: i32,
    /// Time base denominator.
    pub time_base_den: i32,
    /// Keyframe interval in frames.
    pub gop_size: u32,
    /// Bidirectional frames between references.
    pub b_frames: u32,
}

/// The state machine of one encoder session: it binds to the first
/// frame's geometry, counts progress, and publishes codec parameters
/// exactly once — after the first packet, when the backend's headers
/// exist.
pub struct EncoderSession {
    /// Configuration of this session.
    pub config: EncoderConfig,
    /// Lifecycle state.
    pub state: EncoderState,
    /// Whether codec parameters have been published.
    pub params_published: bool,
    /// Frames that produced a packet.
    pub frames_encoded: u64,
    /// Bytes produced.
    pub bytes_output: u64,
}

impl EncoderSession {
    /// Open a session over a stored configuration.
    pub fn new(config: EncoderConfig) -> (r: EncoderSession)
        ensures
            r.config == config,
            r.state == EncoderState::Created,
            !r.params_published,
            r.frames_encoded == 0,
            r.bytes_output == 0,
    {
        EncoderSession {
            config,
            state: EncoderState::Created,
            params_published: false,
            frames_encoded: 0,
            bytes_output: 0,
        }
    }

    /// Bind to the first frame's geometry and compute what the backend
    /// context opens with: the configured output resolution when one is
    /// set, else the input geometry; a scaler exactly when they differ;
    /// and a millisecond time base.
    pub fn bind(&mut self, input_width: u32, input_height: u32) -> (r: BackendInit)
        requires
            old(self).state == EncoderState::Created,
        ensures
            final(self).state == (EncoderState::Bound { input_width, input_height }),
            final(self).config == old(self).config,
            final(self).params_published == old(self).params_published,
            final(self).frames_encoded == old(self).frames_encoded,
            final(self).bytes_output == old(self).bytes_output,
            match old(self).config.resolution {
                Some(res) => r.width == res.width && r.height == res.height,
                None => r.width == input_width && r.height == input_height,
            },
            r.needs_scaler == (r.width != input_width || r.height != input_height),
            r.time_base_num == 1 && r.time_base_den == 1000,
            r.gop_size == old(self).config.gop_size,
            r.b_frames == old(self).config.b_frames,
    {
        let (width, height): (u32, u32) = match self.config.resolution {
            Some(res) => (res.width, res.height),
            None => (input_width, input_height),
        };
        self.state = EncoderState::Bound { input_width, input_height };
        BackendInit {
            width,
            height,
            needs_scaler: width != input_width || height != input_height,
            time_base_num: 1,
            time_base_den: 1000,
            gop_size: self.config.gop_size,
            b_frames: self.config.b_frames,
        }
    }

    /// Account one packet the backend produced, and decide whether to
    /// publish codec parameters: exactly the first packet publishes
    /// them, every later one does not.
    pub fn on_packet(&mut self, size: usize) -> (publish: bool)
        ensures
            publish == !old(self).params_published,
            final(self).params_published,
            final(self).state == old(self).state,
            final(self).config == old(self).config,
            final(self).frames_encoded as int == crate::output::sat_u64(
                old(self).frames_encoded as int + 1,
            ),
            final(self).bytes_output as int == crate::output::sat_u64(
                old(self).bytes_output as int + size as int,
            ),
    {
        let publish: bool = !self.params_published;
        self.params_published = true;
        self.frames_encoded = if self.frames_encoded < u64::MAX {
            self.frames_encoded + 1
        } else {
            u64::MAX
        };
        let size64: u64 = size as u64;
        self.bytes_output = if self.bytes_output <= u64::MAX - size64 {
            self.bytes_output + size64
        } else {
            u64::MAX
        };
        publish
    }

    /// Stream parameters for the muxer, from the session's bound
    /// geometry and the backend's out-of-band headers.
    pub fn codec_params(&self, extradata: Vec<u8>) -> (r: CodecParams)
        requires
            self.state is Bound,
        ensures
            r.codec == self.config.codec,
            r.extradata == extradata,
            match self.config.resolution {
                Some(res) => r.resolution == res,
                None => r.resolution == (Resolution {
                    width: self.state->Bound_input_width,
                    height: self.state->Bound_input_height,
                }),
            },
            r.framerate == self.config.framerate,
            r.time_base_num == 1 && r.time_base_den == 1000,
            r.bitrate == self.config.bitrate_kbps as int * 1000,
    {
        let resolution: Resolution = match self.config.resolution {
            Some(res) => res,
            None => {
                match self.state {
                    EncoderState::Bound { input_width, input_height } => Resolution {
                        width: input_width,
                        height: input_height,
                    },
                    _ => Resolution { width: 0, height: 0 },
                }
            },
        };
        CodecParams {
            codec: self.config.codec,
            extradata,
            resolution,
            framerate: self.config.framerate,
            time_base_num: 1,
            time_base_den: 1000,
            bitrate: (self.config.bitrate_kbps as i64) * 1000,
        }
    }

    /// Enter the drained state at end of stream.
    pub fn flush(&mut self)
        ensures
            final(self).state == EncoderState::Flushed,
            final(self).config == old(self).config,
            final(self).params_published == old(self).params_published,
            final(self).frames_encoded == old(self).frames_encoded,
            final(self).bytes_output == old(self).bytes_output,
    {
        self.state = EncoderState::Flushed;
    }

    /// Counters for the running session.
    pub fn stats(&self) -> (r: EncoderStats)
        ensures
            r.frames_encoded == self.frames_encoded,
            r.bytes_output == self.bytes_output,
    {
        EncoderStats {
            frames_encoded: self.frames_encoded,
            bytes_output: self.bytes_output,
            current_bitrate_kbps: 0,
            queue_depth: 0,
        }
    }

    /// Store a new configuration; it takes effect when the next
    /// session binds.
    pub fn reconfigure(&mut self, config: &EncoderConfig)
        ensures
            final(self).config == *config,
            final(self).state == old(self).state,
            final(self).params_published == old(self).params_published,
    {
        self.config = config.duplicate();
    }
}


} // verus!
