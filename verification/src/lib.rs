//! Realtime desktop video capture, encode, and delivery engine.
//!
//! The library holds the engine's verified core: the frame and packet
//! model, pure pixel transforms, encoder and output-sink state machines,
//! and the pipeline orchestration rules that connect capture to output.
//! Process boundaries — portal RPC, media-graph loops, codec backends —
//! are driven by a host program around this crate.

pub mod audio;
pub mod capture;
pub mod config;
pub mod encode;
pub mod error;
pub mod output;
pub mod pipeline;
pub mod processing;
pub mod text;
pub mod types;

pub use config::{CaptureConfig, EncoderConfig, Preset};
pub use encode::Codec;
pub use error::{Error, Result};
pub use output::{AvMuxer, Container, MuxerPacket, Output, StreamType};
pub use pipeline::{AudioConfig, Pipeline, PipelineBuilder};
pub use processing::{ColorPrimaries, ContentLightLevel, HdrConfig, TransferFunction};
pub use types::{Frame, FrameFormat, Resolution};

use vstd::prelude::*;

verus! {

/// The encoder report for a probe of the system; see
/// [`encode::get_info`].
pub fn get_encoder_info(probe: &encode::EncoderProbe) -> (r: encode::EncoderInfo)
    ensures
        r.nvenc_available == probe.nvenc_available,
        r.software.x264 == probe.x264,
        r.software.x265 == probe.x265,
        r.software.svtav1 == probe.svtav1,
{
    encode::get_info(probe)
}

} // verus!
