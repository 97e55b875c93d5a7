//! Error taxonomy for the capture/encode/output engine.

use vstd::prelude::*;

verus! {

/// Result alias over the engine error type.
pub type Result<T> = core::result::Result<T, Error>;

/// Engine error type. Variants are non-overlapping: each failure site maps
/// to exactly one variant.
#[derive(Debug)]
pub enum Error {
    /// Portal RPC failure while negotiating a screencast session.
    Portal(String),
    /// Media-graph (PipeWire) failure.
    PipeWire(String),
    /// The user selected no capture source, or the portal returned none.
    NoCaptureSource,
    /// The user denied the screencast permission prompt.
    CapturePermissionDenied,
    /// Hardware encoder (NVENC) missing on this system.
    NvencNotAvailable(String),
    /// No encoder backend supports the requested codec.
    CodecNotSupported(String),
    /// Backend encoder failed to open.
    EncoderInit(String),
    /// A frame failed to encode.
    EncodingFailed(String),
    /// Rejected encoder configuration.
    InvalidEncoderConfig(String),
    /// Output sink failed to initialize.
    OutputInit(String),
    /// Virtual camera node could not be published.
    VirtualCamera(String),
    /// File muxer failure.
    FileOutput(String),
    /// Generic streaming failure.
    Streaming(String),
    /// `stop` or `stats` was requested before `start`.
    PipelineNotStarted,
    /// `start` was requested while the pipeline was already running.
    PipelineAlreadyRunning,
    /// Orchestration failure inside a running pipeline.
    Pipeline(String),
    /// Scaler failure.
    Scaling(String),
    /// Pixel-format conversion failure.
    ColorspaceConversion(String),
    /// Media library failure outside a more specific category.
    Ffmpeg(String),
    /// Audio capture failure.
    AudioCapture(String),
    /// Audio encoder failure.
    AudioEncoder(String),
    /// A frame was requested from a capture that was never started.
    CaptureNotStarted,
    /// The capture session ended; the frame channel is closed.
    CaptureEnded,
    /// The encoder was used before `init`.
    EncoderNotInitialized,
    /// A bounded wait elapsed without delivery (non-fatal).
    Timeout(String),
    /// RTMP connection or write failure.
    Rtmp(String),
    /// SRT connection or write failure.
    Srt(String),
    /// A network connection could not be established.
    ConnectionFailed(String),
    /// Container muxer failure.
    Muxer(String),
    /// Rejected configuration value.
    Config(String),
    /// Operating-system I/O failure.
    Io(String),
    /// Invariant violation that callers cannot provoke.
    Internal(String),
}

impl Error {
    /// An error is recoverable when the pipeline may keep running past it:
    /// a failed encode skips one frame, and streaming or orchestration
    /// hiccups are retried by policy.
    pub fn is_recoverable(&self) -> (r: bool)
        ensures
            r == (self is EncodingFailed || self is Streaming || self is Pipeline),
    {
        matches!(
            self,
            Error::EncodingFailed(_) | Error::Streaming(_) | Error::Pipeline(_)
        )
    }

    /// Whether the failure points at missing hardware or drivers rather
    /// than at this process.
    pub fn is_hardware_issue(&self) -> (r: bool)
        ensures
            r == (self is NvencNotAvailable || self is CodecNotSupported),
    {
        matches!(
            self,
            Error::NvencNotAvailable(_) | Error::CodecNotSupported(_)
        )
    }
}

} // verus!
