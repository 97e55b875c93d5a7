//! Screen capture: the capture capability contract, backend selection,
//! and the format negotiation request handed to the media graph.

pub mod dmabuf;
pub mod stream;

pub use dmabuf::{fourcc, DmaBufImporter, DmaBufInfo};

use vstd::prelude::*;
use crate::config::{CaptureBackend, CaptureConfig};
use crate::error::Error;
use crate::types::{Frame, Framerate, Resolution};

verus! {

/// Capability contract every capture backend offers.
pub trait Capture {
    /// Start the capture session; starting a started session succeeds.
    fn start(&mut self) -> Result<(), Error>;

    /// Stop the session.
    fn stop(&mut self) -> Result<(), Error>;

    /// The next captured frame, a timeout, or the end of the session.
    fn next_frame(&mut self) -> Result<Frame, Error>;

    /// Whether a session is running.
    fn is_active(&self) -> bool;

    /// Negotiated resolution, once known.
    fn resolution(&self) -> Option<Resolution>;

    /// Negotiated framerate, once known.
    fn framerate(&self) -> Option<Framerate>;
}

/// A capture source the system offers.
#[derive(Debug, Clone)]
pub struct CaptureSourceInfo {
    /// Source identifier.
    pub id: String,
    /// Display name.
    pub name: String,
    /// Kind of source.
    pub source_type: CaptureSourceType,
    /// Resolution, where known.
    pub resolution: Option<Resolution>,
}

/// Kind of capture source.
#[derive(Debug, Clone, Copy, PartialEq, Eq, Structural)]
pub enum CaptureSourceType {
    /// A whole monitor.
    Monitor,
    /// One application window.
    Window,
    /// A virtual source.
    Virtual,
}

/// Pick the capture backend for a session, given the configuration and
/// what the environment offers.
///
/// An explicit choice stands. The automatic choice prefers zero-copy
/// DMA-BUF capture on Wayland when the configuration asks for it and
/// the system supports it, and otherwise takes the portal — which also
/// serves non-Wayland sessions.
pub fn select_backend(config: &CaptureConfig, is_wayland: bool, dmabuf_available: bool) -> (r:
    CaptureBackend)
    ensures
        config.backend != CaptureBackend::Auto ==> r == config.backend,
        config.backend == CaptureBackend::Auto ==> {
            &&& (config.prefer_dmabuf && is_wayland && dmabuf_available) ==> r
                == CaptureBackend::WlrExport
            &&& !(config.prefer_dmabuf && is_wayland && dmabuf_available) ==> r
                == CaptureBackend::Portal
        },
        r != CaptureBackend::Auto,
{
    if !matches!(config.backend, CaptureBackend::Auto) {
        return config.backend;
    }
    if config.prefer_dmabuf && is_wayland && dmabuf_available {
        CaptureBackend::WlrExport
    } else {
        CaptureBackend::Portal
    }
}

/// The format request a capture session offers the compositor: a
/// preferred geometry and framerate inside the ranges the engine can
/// consume.
#[derive(Debug, Clone, Copy, PartialEq, Eq, Structural)]
pub struct StreamFormatRequest {
    /// Preferred width.
    pub preferred_width: u32,
    /// Preferred height.
    pub preferred_height: u32,
    /// Smallest acceptable dimension.
    pub min_dimension: u32,
    /// Largest acceptable width.
    pub max_width: u32,
    /// Largest acceptable height.
    pub max_height: u32,
    /// Preferred framerate numerator (denominator one).
    pub preferred_fps: u32,
    /// Smallest acceptable framerate.
    pub min_fps: u32,
    /// Largest acceptable framerate.
    pub max_fps: u32,
}

/// The pixel formats a capture session offers the compositor, in
/// preference order: the packed desktop formats, then the encoder's
/// planar format.
pub fn offered_pixel_formats() -> (r: Vec<crate::types::FrameFormat>)
    ensures
        r@.len() == 3,
        r@[0] == crate::types::FrameFormat::Bgra,
        r@[1] == crate::types::FrameFormat::Rgba,
        r@[2] == crate::types::FrameFormat::Nv12,
{
    let mut formats: Vec<crate::types::FrameFormat> = Vec::new();
    formats.push(crate::types::FrameFormat::Bgra);
    formats.push(crate::types::FrameFormat::Rgba);
    formats.push(crate::types::FrameFormat::Nv12);
    formats
}

impl StreamFormatRequest {
    /// Build the negotiation request for a capture configuration: the
    /// configured target preferred, any geometry from 1×1 to 7680×4320
    /// accepted, and framerates from 1 to 240.
    pub fn for_config(config: &CaptureConfig, target: Resolution) -> (r: StreamFormatRequest)
        ensures
            r.preferred_width == target.width,
            r.preferred_height == target.height,
            r.min_dimension == 1,
            r.max_width == 7680,
            r.max_height == 4320,
            r.preferred_fps == config.framerate.num,
            r.min_fps == 1,
            r.max_fps == 240,
    {
        StreamFormatRequest {
            preferred_width: target.width,
            preferred_height: target.height,
            min_dimension: 1,
            max_width: 7680,
            max_height: 4320,
            preferred_fps: config.framerate.num,
            min_fps: 1,
            max_fps: 240,
        }
    }
}

} // verus!
