//! Pipeline orchestration: the lifecycle flag, the session counters and
//! their invariant, and the decisions that wire capture through
//! processing and encoding into an output.
//!
//! The engine's threads and channels run in the host program; every
//! decision they take — which format to process toward, which output
//! mode to open, what to do when the encoder dies early, when a loop
//! exits — is a function here.

use vstd::prelude::*;
use vstd::string::StringExecFns;
use crate::audio::{AudioCodec, AudioSource};
use crate::config::{CaptureConfig, EncoderConfig, Preset};
use crate::error::Error;
use crate::output::Output;
use crate::types::{CodecParams, FrameFormat, Resolution, Stats};

verus! {

/// Audio settings of a pipeline.
#[derive(Debug, Clone)]
pub struct AudioConfig {
    /// Whether audio is captured at all.
    pub enabled: bool,
    /// Source to capture.
    pub source: AudioSource,
    /// Audio codec.
    pub codec: AudioCodec,
    /// Sample rate in hertz.
    pub sample_rate: u32,
    /// Number of channels.
    pub channels: u32,
    /// Bitrate in bits per second.
    pub bitrate: u32,
}

impl Default for AudioConfig {
    fn default() -> (r: AudioConfig)
        ensures
            !r.enabled,
            r.source == AudioSource::Desktop,
            r.codec == AudioCodec::Aac,
            r.sample_rate == 48000,
            r.channels == 2,
            r.bitrate == 192_000,
    {
        AudioConfig {
            enabled: false,
            source: AudioSource::Desktop,
            codec: AudioCodec::Aac,
            sample_rate: 48000,
            channels: 2,
            bitrate: 192_000,
        }
    }
}

/// Monotone counters of one capture session, kept in balance: no frame
/// is encoded before it was captured, none written before it was
/// encoded, and the dropped count is exactly the captured frames that
/// never reached the encoder.
pub struct SessionCounters {
    /// Frames delivered by the capture stage.
    pub frames_captured: u64,
    /// Frames that produced an encoded packet.
    pub frames_encoded: u64,
    /// Packets written to the output stage.
    pub frames_written: u64,
    /// Frames dropped between capture and encode.
    pub frames_dropped: u64,
    /// Bytes handed to the output stage, saturating.
    pub bytes_written: u64,
}

impl SessionCounters {
    /// The session balance: captured ≥ encoded ≥ written, and dropped
    /// is exactly captured minus encoded.
    pub open spec fn wf(&self) -> bool {
        &&& self.frames_encoded <= self.frames_captured
        &&& self.frames_written <= self.frames_encoded
        &&& self.frames_dropped == self.frames_captured - self.frames_encoded
    }

    pub fn new() -> (r: SessionCounters)
        ensures
            r.wf(),
            r.frames_captured == 0,
            r.frames_encoded == 0,
            r.frames_written == 0,
            r.frames_dropped == 0,
            r.bytes_written == 0,
    {
        SessionCounters {
            frames_captured: 0,
            frames_encoded: 0,
            frames_written: 0,
            frames_dropped: 0,
            bytes_written: 0,
        }
    }

    /// Account one captured frame; until it is encoded it counts as
    /// dropped.
    pub fn record_captured(&mut self)
        requires
            old(self).wf(),
            old(self).frames_captured < u64::MAX,
        ensures
            final(self).wf(),
            final(self).frames_captured == old(self).frames_captured + 1,
            final(self).frames_encoded == old(self).frames_encoded,
            final(self).frames_written == old(self).frames_written,
            final(self).bytes_written == old(self).bytes_written,
    {
        self.frames_captured = self.frames_captured + 1;
        self.frames_dropped = self.frames_dropped + 1;
    }

    /// Account one encoded packet of `bytes` payload bytes.
    pub fn record_encoded(&mut self, bytes: usize)
        requires
            old(self).wf(),
            old(self).frames_encoded < old(self).frames_captured,
        ensures
            final(self).wf(),
            final(self).frames_captured == old(self).frames_captured,
            final(self).frames_encoded == old(self).frames_encoded + 1,
            final(self).frames_written == old(self).frames_written,
            final(self).bytes_written as int == crate::output::sat_u64(
                old(self).bytes_written as int + bytes as int,
            ),
    {
        self.frames_encoded = self.frames_encoded + 1;
        self.frames_dropped = self.frames_dropped - 1;
        let bytes64: u64 = bytes as u64;
        self.bytes_written = if self.bytes_written <= u64::MAX - bytes64 {
            self.bytes_written + bytes64
        } else {
            u64::MAX
        };
    }

    /// Account one packet written to the output.
    pub fn record_written(&mut self)
        requires
            old(self).wf(),
            old(self).frames_written < old(self).frames_encoded,
        ensures
            final(self).wf(),
            final(self).frames_captured == old(self).frames_captured,
            final(self).frames_encoded == old(self).frames_encoded,
            final(self).frames_written == old(self).frames_written + 1,
            final(self).bytes_written == old(self).bytes_written,
    {
        self.frames_written = self.frames_written + 1;
    }

    /// The published statistics view of these counters, with the
    /// session bitrate computed over the elapsed wall-clock time.
    pub fn to_stats_with_elapsed(&self, elapsed_ms: u64) -> (r: Stats)
        ensures
            r.frames_captured == self.frames_captured,
            r.frames_encoded == self.frames_encoded,
            r.frames_dropped == self.frames_dropped,
            r.bytes_written == self.bytes_written,
            elapsed_ms == 0 ==> r.current_bitrate_kbps == 0,
            elapsed_ms > 0 ==> r.current_bitrate_kbps as int == crate::output::sat_u64(
                self.bytes_written as int * 8 / elapsed_ms as int,
            ),
    {
        Stats {
            frames_captured: self.frames_captured,
            frames_encoded: self.frames_encoded,
            frames_dropped: self.frames_dropped,
            current_bitrate_kbps: crate::encode::bitrate_kbps(self.bytes_written, elapsed_ms),
            bytes_written: self.bytes_written,
            gpu_encoder_util: 0,
        }
    }

    /// The published statistics view of these counters.
    pub fn to_stats(&self) -> (r: Stats)
        ensures
            r.frames_captured == self.frames_captured,
            r.frames_encoded == self.frames_encoded,
            r.frames_dropped == self.frames_dropped,
            r.bytes_written == self.bytes_written,
    {
        Stats {
            frames_captured: self.frames_captured,
            frames_encoded: self.frames_encoded,
            frames_dropped: self.frames_dropped,
            current_bitrate_kbps: 0,
            bytes_written: self.bytes_written,
            gpu_encoder_util: 0,
        }
    }
}

/// In every balanced session the counters run downhill — captured, then
/// encoded, then written — and the dropped count is exactly the
/// captured frames the encoder never saw.
pub proof fn lemma_session_balance(c: &SessionCounters)
    requires
        c.wf(),
    ensures
        c.frames_captured >= c.frames_encoded >= c.frames_written,
        c.frames_dropped == c.frames_captured - c.frames_encoded,
{
}

/// The format the processing stage must produce for the encoder: the
/// configured pixel format when the backend takes it natively, and the
/// backend's standard planar format otherwise.
pub fn target_format_for(config: &EncoderConfig) -> (r: Option<FrameFormat>)
    ensures
        (config.pixel_format == FrameFormat::Nv12 || config.pixel_format == FrameFormat::P010)
            ==> r == Some(config.pixel_format),
        !(config.pixel_format == FrameFormat::Nv12 || config.pixel_format == FrameFormat::P010)
            ==> r == Some(FrameFormat::Nv12),
{
    if config.pixel_format.is_nvenc_native() {
        Some(config.pixel_format)
    } else {
        Some(FrameFormat::Nv12)
    }
}

/// Whether the session muxes audio and video into one container: only
/// a file output with audio enabled and audio parameters delivered.
pub fn use_av_muxer(output: &Output, audio_enabled: bool, audio_params_present: bool) -> (r: bool)
    ensures
        r == (audio_enabled && audio_params_present && output is File),
{
    audio_enabled && audio_params_present && matches!(output, Output::File { .. })
}

/// Settle the codec parameters the output opens with. Delivered
/// parameters stand. When the encoder died before its first packet, a
/// file output tolerates the default parameter set; any other output
/// cannot open without real parameters and the pipeline aborts.
pub fn resolve_codec_params(received: Option<CodecParams>, output: &Output) -> (r: Result<
    CodecParams,
    Error,
>)
    ensures
        received matches Some(p) ==> r == Ok::<CodecParams, Error>(p),
        received is None && output is File ==> (r matches Ok(p) && p.codec
            == crate::encode::Codec::H264 && p.resolution == (Resolution {
            width: 1920u32,
            height: 1080u32,
        }) && p.framerate.num == 60 && p.framerate.den == 1 && p.bitrate == 6_000_000),
        received is None && !(output is File) ==> (r matches Err(e) && e is Pipeline),
{
    match received {
        Some(params) => Ok(params),
        None => {
            if matches!(output, Output::File { .. }) {
                Ok(CodecParams::default())
            } else {
                Err(Error::Pipeline(String::from_str("no codec parameters for a wire output")))
            }
        },
    }
}

/// What a bounded receive with a timeout came back with.
#[derive(Debug, Clone, Copy, PartialEq, Eq, Structural)]
pub enum ChannelPoll {
    /// An item arrived.
    Delivered,
    /// The wait elapsed empty.
    TimedOut,
    /// The sending side is gone.
    Closed,
}

/// What the encoder loop does next.
#[derive(Debug, Clone, Copy, PartialEq, Eq, Structural)]
pub enum EncoderLoopAction {
    /// Process and encode the delivered frame.
    Process,
    /// Nothing arrived; poll the running flag again.
    Idle,
    /// Leave the loop and flush the encoder.
    Exit,
}

/// The encoder loop's next step: it exits when the session stops or
/// the frame channel closes, idles through empty waits, and processes
/// every delivered frame.
pub fn encoder_loop_step(running: bool, poll: ChannelPoll) -> (r: EncoderLoopAction)
    ensures
        !running ==> r == EncoderLoopAction::Exit,
        running && poll == ChannelPoll::Delivered ==> r == EncoderLoopAction::Process,
        running && poll == ChannelPoll::TimedOut ==> r == EncoderLoopAction::Idle,
        running && poll == ChannelPoll::Closed ==> r == EncoderLoopAction::Exit,
{
    if !running {
        return EncoderLoopAction::Exit;
    }
    match poll {
        ChannelPoll::Delivered => EncoderLoopAction::Process,
        ChannelPoll::TimedOut => EncoderLoopAction::Idle,
        ChannelPoll::Closed => EncoderLoopAction::Exit,
    }
}

/// The capture → process → encode → output pipeline.
///
/// The struct owns the configuration, the lifecycle flag, and the
/// session counters; the host program runs the stage loops against it.
pub struct Pipeline {
    /// Capture configuration.
    pub capture_config: CaptureConfig,
    /// Encoder configuration.
    pub encoder_config: EncoderConfig,
    /// Audio configuration.
    pub audio_config: AudioConfig,
    /// Output configuration.
    pub output_config: Output,
    /// Whether a session is running.
    pub running: bool,
    /// Counters of the running session.
    pub counters: SessionCounters,
}

impl Pipeline {
    /// A video-only pipeline.
    pub fn new(capture: CaptureConfig, encoder: EncoderConfig, output: Output) -> (r: Result<
        Pipeline,
        Error,
    >)
        ensures
            r matches Ok(p) && {
                &&& p.capture_config == capture
                &&& p.encoder_config == encoder
                &&& p.output_config == output
                &&& !p.audio_config.enabled
                &&& !p.running
                &&& p.counters.wf()
                &&& p.counters.frames_captured == 0
            },
    {
        Pipeline::new_with_audio(capture, encoder, AudioConfig::default(), output)
    }

    /// A pipeline with an audio path.
    pub fn new_with_audio(
        capture: CaptureConfig,
        encoder: EncoderConfig,
        audio: AudioConfig,
        output: Output,
    ) -> (r: Result<Pipeline, Error>)
        ensures
            r matches Ok(p) && {
                &&& p.capture_config == capture
                &&& p.encoder_config == encoder
                &&& p.audio_config == audio
                &&& p.output_config == output
                &&& !p.running
                &&& p.counters.wf()
                &&& p.counters.frames_captured == 0
            },
    {
        Ok(Pipeline {
            capture_config: capture,
            encoder_config: encoder,
            audio_config: audio,
            output_config: output,
            running: false,
            counters: SessionCounters::new(),
        })
    }

    /// A video-only pipeline from a named preset.
    pub fn from_preset(preset: Preset, output: Output) -> (r: Result<Pipeline, Error>)
        ensures
            r matches Ok(p) && !p.running && !p.audio_config.enabled,
    {
        let encoder_config = EncoderConfig::from_preset(preset);
        Pipeline::new(CaptureConfig::default(), encoder_config, output)
    }

    /// A pipeline from a named preset, with an audio path.
    pub fn from_preset_with_audio(preset: Preset, audio: AudioConfig, output: Output) -> (r:
        Result<Pipeline, Error>)
        ensures
            r matches Ok(p) && !p.running && p.audio_config == audio,
    {
        let encoder_config = EncoderConfig::from_preset(preset);
        Pipeline::new_with_audio(CaptureConfig::default(), encoder_config, audio, output)
    }

    /// Start a session. Fails exactly when one is already running;
    /// otherwise the running flag is raised and the stage loops may
    /// spin up.
    pub fn start(&mut self) -> (r: Result<(), Error>)
        requires
            old(self).counters.wf(),
        ensures
            final(self).counters.wf(),
            old(self).running ==> (r matches Err(e) && e is PipelineAlreadyRunning) && *final(self)
                == *old(self),
            !old(self).running ==> {
                &&& r is Ok
                &&& final(self).running
                &&& final(self).capture_config == old(self).capture_config
                &&& final(self).encoder_config == old(self).encoder_config
                &&& final(self).audio_config == old(self).audio_config
                &&& final(self).output_config == old(self).output_config
                &&& final(self).counters == old(self).counters
            },
    {
        if self.running {
            return Err(Error::PipelineAlreadyRunning);
        }
        self.running = true;
        Ok(())
    }

    /// Stop the session: the flag clears and every stage loop winds
    /// down on its own cadence. After a stop the pipeline can be
    /// started again.
    pub fn stop(&mut self) -> (r: Result<(), Error>)
        requires
            old(self).counters.wf(),
        ensures
            final(self).counters.wf(),
            r is Ok,
            !final(self).running,
            final(self).capture_config == old(self).capture_config,
            final(self).encoder_config == old(self).encoder_config,
            final(self).audio_config == old(self).audio_config,
            final(self).output_config == old(self).output_config,
            final(self).counters == old(self).counters,
    {
        if !self.running {
            return Ok(());
        }
        self.running = false;
        Ok(())
    }

    /// Whether a session is running.
    pub fn is_running(&self) -> (r: bool)
        ensures
            r == self.running,
    {
        self.running
    }

    /// Statistics of the running session.
    pub fn stats(&self) -> (r: Stats)
        ensures
            r.frames_captured == self.counters.frames_captured,
            r.frames_encoded == self.counters.frames_encoded,
            r.frames_dropped == self.counters.frames_dropped,
            r.bytes_written == self.counters.bytes_written,
    {
        self.counters.to_stats()
    }

    /// Store a new encoder configuration; it takes effect on the next
    /// session.
    pub fn reconfigure_encoder(&mut self, config: EncoderConfig) -> (r: Result<(), Error>)
        ensures
            r is Ok,
            final(self).encoder_config == config,
            final(self).running == old(self).running,
            final(self).counters == old(self).counters,
            final(self).capture_config == old(self).capture_config,
            final(self).output_config == old(self).output_config,
    {
        self.encoder_config = config;
        Ok(())
    }
}


/// Builder for a pipeline configuration.
pub struct PipelineBuilder {
    /// Capture configuration.
    pub capture: CaptureConfig,
    /// Encoder configuration.
    pub encoder: EncoderConfig,
    /// Audio configuration.
    pub audio: AudioConfig,
    /// Output configuration.
    pub output: Output,
}

impl PipelineBuilder {
    pub fn new() -> (r: PipelineBuilder)
        ensures
            !r.audio.enabled,
            r.output is VirtualCamera,
    {
        PipelineBuilder {
            capture: CaptureConfig::default(),
            encoder: EncoderConfig::default(),
            audio: AudioConfig::default(),
            output: Output::default(),
        }
    }

    pub fn capture(self, config: CaptureConfig) -> (r: PipelineBuilder)
        ensures
            r == (PipelineBuilder { capture: config, ..self }),
    {
        PipelineBuilder { capture: config, ..self }
    }

    pub fn encoder(self, config: EncoderConfig) -> (r: PipelineBuilder)
        ensures
            r == (PipelineBuilder { encoder: config, ..self }),
    {
        PipelineBuilder { encoder: config, ..self }
    }

    pub fn output(self, output: Output) -> (r: PipelineBuilder)
        ensures
            r == (PipelineBuilder { output, ..self }),
    {
        PipelineBuilder { output, ..self }
    }

    pub fn preset(self, preset: Preset) -> (r: PipelineBuilder)
        ensures
            r.capture == self.capture,
            r.audio == self.audio,
            r.output == self.output,
    {
        PipelineBuilder { encoder: EncoderConfig::from_preset(preset), ..self }
    }

    pub fn codec(self, codec: crate::encode::Codec) -> (r: PipelineBuilder)
        ensures
            r.encoder.codec == codec,
            r.capture == self.capture,
            r.audio == self.audio,
            r.output == self.output,
    {
        let encoder = self.encoder.with_codec(codec);
        PipelineBuilder { encoder, ..self }
    }

    pub fn resolution(self, width: u32, height: u32) -> (r: PipelineBuilder)
        ensures
            r.encoder.resolution == Some(Resolution { width, height }),
            r.capture == self.capture,
            r.audio == self.audio,
            r.output == self.output,
    {
        let encoder = self.encoder.with_resolution(width, height);
        PipelineBuilder { encoder, ..self }
    }

    pub fn bitrate(self, kbps: u32) -> (r: PipelineBuilder)
        ensures
            r.encoder.bitrate_kbps == kbps,
            r.capture == self.capture,
            r.audio == self.audio,
            r.output == self.output,
    {
        let encoder = self.encoder.with_bitrate_kbps(kbps);
        PipelineBuilder { encoder, ..self }
    }

    pub fn fps(self, fps: u32) -> (r: PipelineBuilder)
        ensures
            r.capture.framerate.num == fps && r.capture.framerate.den == 1,
            r.encoder == self.encoder,
            r.audio == self.audio,
            r.output == self.output,
    {
        let capture = self.capture.with_fps(fps);
        PipelineBuilder { capture, ..self }
    }

    /// Enable audio capture with the default settings.
    pub fn with_audio(self) -> (r: PipelineBuilder)
        ensures
            r.audio.enabled,
            r.audio.source == self.audio.source,
            r.audio.codec == self.audio.codec,
            r.audio.bitrate == self.audio.bitrate,
            r.capture == self.capture,
            r.encoder == self.encoder,
            r.output == self.output,
    {
        PipelineBuilder { audio: AudioConfig { enabled: true, ..self.audio }, ..self }
    }

    /// Replace the audio settings.
    pub fn audio(self, config: AudioConfig) -> (r: PipelineBuilder)
        ensures
            r == (PipelineBuilder { audio: config, ..self }),
    {
        PipelineBuilder { audio: config, ..self }
    }

    /// Capture from this audio source; enables audio.
    pub fn audio_source(self, source: AudioSource) -> (r: PipelineBuilder)
        ensures
            r.audio.enabled,
            r.audio.source == source,
            r.capture == self.capture,
            r.encoder == self.encoder,
            r.output == self.output,
    {
        PipelineBuilder { audio: AudioConfig { enabled: true, source, ..self.audio }, ..self }
    }

    /// Encode audio with this codec; enables audio.
    pub fn audio_codec(self, codec: AudioCodec) -> (r: PipelineBuilder)
        ensures
            r.audio.enabled,
            r.audio.codec == codec,
            r.capture == self.capture,
            r.encoder == self.encoder,
            r.output == self.output,
    {
        PipelineBuilder { audio: AudioConfig { enabled: true, codec, ..self.audio }, ..self }
    }

    /// Set the audio bitrate in kilobits per second; enables audio.
    pub fn audio_bitrate(self, kbps: u32) -> (r: PipelineBuilder)
        requires
            kbps * 1000 <= u32::MAX,
        ensures
            r.audio.enabled,
            r.audio.bitrate == kbps * 1000,
            r.capture == self.capture,
            r.encoder == self.encoder,
            r.output == self.output,
    {
        PipelineBuilder {
            audio: AudioConfig { enabled: true, bitrate: kbps * 1000, ..self.audio },
            ..self
        }
    }

    /// Build the pipeline.
    pub fn build(self) -> (r: Result<Pipeline, Error>)
        ensures
            r matches Ok(p) && {
                &&& p.capture_config == self.capture
                &&& p.encoder_config == self.encoder
                &&& p.audio_config == self.audio
                &&& p.output_config == self.output
                &&& !p.running
            },
    {
        Pipeline::new_with_audio(self.capture, self.encoder, self.audio, self.output)
    }
}

impl Default for PipelineBuilder {
    fn default() -> (r: PipelineBuilder)
        ensures
            !r.audio.enabled,
    {
        PipelineBuilder::new()
    }
}

} // verus!
