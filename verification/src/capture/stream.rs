//! Assembly of the captured frame stream.
//!
//! The media graph delivers raw buffers through a process callback;
//! this module holds the callback's decision: which buffers become
//! frames, and with what geometry and stamps.

use vstd::prelude::*;
use crate::types::{spec_frame_bytes, Frame, FrameFormat};

verus! {

/// Turn one delivered buffer into a frame, using the geometry cached
/// from format negotiation and the wall-clock stamp taken at delivery.
/// An empty buffer carries no frame and is skipped.
pub fn frame_from_buffer(
    data: Vec<u8>,
    width: u32,
    height: u32,
    stride: u32,
    format: FrameFormat,
    pts_us: i64,
) -> (r: Option<Frame>)
    requires
        data@.len() == 0 || data@.len() >= spec_frame_bytes(format, width as int, height as int),
    ensures
        data@.len() == 0 ==> r is None,
        data@.len() > 0 ==> (r matches Some(f) && {
            &&& f.wf()
            &&& f.data == data
            &&& f.width == width
            &&& f.height == height
            &&& f.stride == stride
            &&& f.format == format
            &&& f.pts == pts_us
            &&& f.dmabuf_fd is None
            &&& !f.is_keyframe
        }),
{
    if data.len() == 0 {
        return None;
    }
    let mut frame = Frame::from_data(data, width, height, stride, format);
    frame.pts = pts_us;
    Some(frame)
}

} // verus!
