//! Frame processing: scaling and pixel-format conversion between the
//! capture formats and the encoders' native formats.

pub mod convert;
pub mod hdr;
pub mod scale;

pub use convert::ColorspaceConverter;
pub use hdr::{ColorMatrix, ColorPrimaries, ContentLightLevel, HdrConfig, TransferFunction};
pub use scale::{ScaleAlgorithm, Scaler};

use vstd::prelude::*;
use crate::error::Error;
use crate::types::{Frame, FrameFormat, Resolution};

verus! {

/// Whether processing must resize `frame` to reach `target_resolution`.
pub open spec fn spec_needs_scale(frame: &Frame, target_resolution: Option<Resolution>) -> bool {
    match target_resolution {
        Some(res) => res.width != frame.width || res.height != frame.height,
        None => false,
    }
}

/// Whether processing must convert `frame` to reach `target_format`.
pub open spec fn spec_needs_convert(frame: &Frame, target_format: Option<FrameFormat>) -> bool {
    match target_format {
        Some(fmt) => fmt != frame.format,
        None => false,
    }
}

/// The geometry a processed frame comes out at: the target resolution
/// when one is set, the input geometry otherwise.
pub open spec fn spec_out_width(frame: &Frame, target_resolution: Option<Resolution>) -> int {
    match target_resolution {
        Some(res) => res.width as int,
        None => frame.width as int,
    }
}

pub open spec fn spec_out_height(frame: &Frame, target_resolution: Option<Resolution>) -> int {
    match target_resolution {
        Some(res) => res.height as int,
        None => frame.height as int,
    }
}

/// Run a frame through the processing stage: scale to the target
/// resolution when one differs (treating the buffer as packed 4 bytes
/// per pixel, which the capture formats are), then convert to the
/// target format when one differs. Timing and keyframe markings carry
/// through unchanged, and the result never keeps a DMA-BUF
/// descriptor — processing always produces plain bytes.
///
/// A resize fails exactly when the buffer is shorter than the packed
/// source raster or a dimension is zero; conversions follow
/// [`convert::convert_colorspace`].
pub fn process_frame(
    frame: &Frame,
    target_resolution: Option<Resolution>,
    target_format: Option<FrameFormat>,
) -> (r: Result<Frame, Error>)
    requires
        frame.width as int * frame.height as int <= usize::MAX / 8,
        frame.width * 4 <= u32::MAX,
        target_resolution matches Some(res) ==> res.width as int * res.height as int
            <= usize::MAX / 8 && res.width * 4 <= u32::MAX,
    ensures
        r matches Ok(out) ==> {
            &&& out.pts == frame.pts
            &&& out.duration == frame.duration
            &&& out.is_keyframe == frame.is_keyframe
            &&& out.dmabuf_fd is None
            &&& out.width as int == spec_out_width(frame, target_resolution)
            &&& out.height as int == spec_out_height(frame, target_resolution)
            &&& out.stride as int == 4 * spec_out_width(frame, target_resolution)
            &&& out.format == (if target_format is Some { target_format->0 } else { frame.format })
        },
        spec_needs_scale(frame, target_resolution) && !scale::spec_can_resample(
            frame.data@.len() as int,
            frame.width as int,
            frame.height as int,
            spec_out_width(frame, target_resolution),
            spec_out_height(frame, target_resolution),
        ) ==> (r matches Err(e) && e is Scaling),
        !spec_needs_scale(frame, target_resolution) && !spec_needs_convert(frame, target_format)
            ==> (r matches Ok(out) && out.data@ == frame.data@),
        !spec_needs_scale(frame, target_resolution) && ((frame.format == FrameFormat::Bgra
            && target_format == Some(FrameFormat::Rgba)) || (frame.format == FrameFormat::Rgba
            && target_format == Some(FrameFormat::Bgra))) ==> (r matches Ok(out) && out.data@
            == convert::spec_swap_rb(frame.data@)),
        spec_needs_scale(frame, target_resolution) && scale::spec_can_resample(
            frame.data@.len() as int,
            frame.width as int,
            frame.height as int,
            spec_out_width(frame, target_resolution),
            spec_out_height(frame, target_resolution),
        ) && !spec_needs_convert(frame, target_format) ==> (r matches Ok(out) && out.data@.len()
            == spec_out_width(frame, target_resolution) * spec_out_height(frame, target_resolution)
            * 4 && forall|x: int, y: int|
            0 <= x < spec_out_width(frame, target_resolution) && 0 <= y < spec_out_height(
                frame,
                target_resolution,
            ) ==> #[trigger] scale::spec_resampled_pixel_ok(
                out.data@,
                frame.data@,
                frame.width as int,
                frame.height as int,
                spec_out_width(frame, target_resolution),
                spec_out_height(frame, target_resolution),
                x,
                y,
            )),
        !convert::spec_direct_pair(
            frame.format,
            if target_format is Some { target_format->0 } else { frame.format },
        ) && !(spec_needs_scale(frame, target_resolution) && !scale::spec_can_resample(
            frame.data@.len() as int,
            frame.width as int,
            frame.height as int,
            spec_out_width(frame, target_resolution),
            spec_out_height(frame, target_resolution),
        )) ==> (r matches Err(e) && e is ColorspaceConversion),
{
    let width: u32 = frame.width;
    let height: u32 = frame.height;

    // Resize first, at the packed capture layout.
    let (scaled, out_width, out_height): (Vec<u8>, u32, u32) = match target_resolution {
        Some(res) => {
            if res.width != width || res.height != height {
                let resized = scale::scale_frame(
                    frame.data.as_slice(),
                    width,
                    height,
                    res.width,
                    res.height,
                )?;
                (resized, res.width, res.height)
            } else {
                let copied = convert::convert_colorspace(
                    frame.data.as_slice(),
                    frame.format,
                    frame.format,
                    width,
                    height,
                )?;
                (copied, width, height)
            }
        },
        None => {
            let copied = convert::convert_colorspace(
                frame.data.as_slice(),
                frame.format,
                frame.format,
                width,
                height,
            )?;
            (copied, width, height)
        },
    };

    // Then convert to the encoder's format.
    let format: FrameFormat = frame.format;
    let (result, out_format): (Vec<u8>, FrameFormat) = match target_format {
        Some(fmt) => {
            if matches_format(fmt, format) {
                (scaled, format)
            } else {
                let converted = convert::convert_colorspace(
                    scaled.as_slice(),
                    format,
                    fmt,
                    out_width,
                    out_height,
                )?;
                (converted, fmt)
            }
        },
        None => (scaled, format),
    };

    Ok(Frame {
        data: result,
        width: out_width,
        height: out_height,
        stride: out_width * 4,
        format: out_format,
        pts: frame.pts,
        duration: frame.duration,
        is_keyframe: frame.is_keyframe,
        dmabuf_fd: None,
    })
}

/// Whether two format values are the same format.
fn matches_format(a: FrameFormat, b: FrameFormat) -> (r: bool)
    ensures
        r == (a == b),
{
    match (a, b) {
        (FrameFormat::Nv12, FrameFormat::Nv12) => true,
        (FrameFormat::Yuv420p, FrameFormat::Yuv420p) => true,
        (FrameFormat::Yuv444p, FrameFormat::Yuv444p) => true,
        (FrameFormat::Bgra, FrameFormat::Bgra) => true,
        (FrameFormat::Rgba, FrameFormat::Rgba) => true,
        (FrameFormat::Rgb24, FrameFormat::Rgb24) => true,
        (FrameFormat::P010, FrameFormat::P010) => true,
        _ => false,
    }
}

} // verus!
