//! Zero-copy capture buffers: DMA-BUF descriptions and the mapping from
//! DRM pixel codes to the engine's frame formats.

use vstd::prelude::*;
use crate::error::Error;
use crate::types::FrameFormat;

verus! {

/// The 32-bit DRM code packing four ASCII bytes, least significant
/// first.
pub open spec fn spec_fourcc(a: u8, b: u8, c: u8, d: u8) -> int {
    a as int + b as int * 0x100 + c as int * 0x1_0000 + d as int * 0x100_0000
}

/// Pack a four-character code into its 32-bit DRM value.
pub fn fourcc(code: &[u8; 4]) -> (r: u32)
    ensures
        r == spec_fourcc(code[0], code[1], code[2], code[3]),
{
    (code[0] as u32) + ((code[1] as u32) * 0x100) + ((code[2] as u32) * 0x1_0000) + ((code[3]
        as u32) * 0x100_0000)
}

/// DRM code for NV12 (`NV12`).
pub const DRM_FORMAT_NV12: u32 = 0x3231_564E;

/// DRM code for 10-bit NV12 (`P010`).
pub const DRM_FORMAT_P010: u32 = 0x3031_3050;

/// DRM code for packed BGRA (`AR24`).
pub const DRM_FORMAT_ARGB8888: u32 = 0x3432_5241;

/// DRM code for packed BGRX (`XR24`).
pub const DRM_FORMAT_XRGB8888: u32 = 0x3432_5258;

/// DRM code for packed RGBA (`AB24`).
pub const DRM_FORMAT_ABGR8888: u32 = 0x3432_4241;

/// DRM code for packed RGBX (`XB24`).
pub const DRM_FORMAT_XBGR8888: u32 = 0x3432_5842;

/// A DMA-BUF as the compositor exports it: the descriptor plus the
/// geometry and plane layout needed to read it.
#[derive(Debug, Clone)]
pub struct DmaBufInfo {
    /// File descriptor of the buffer.
    pub fd: i32,
    /// Width in pixels.
    pub width: u32,
    /// Height in pixels.
    pub height: u32,
    /// Row stride in bytes.
    pub stride: u32,
    /// DRM pixel code.
    pub format: u32,
    /// Tiling modifier; zero means linear.
    pub modifier: u64,
    /// Number of planes.
    pub num_planes: u32,
    /// Byte offset of each plane.
    pub offsets: [u32; 4],
    /// Row stride of each plane.
    pub strides: [u32; 4],
}

impl DmaBufInfo {
    /// Whether the buffer is untiled and can be read row by row.
    pub fn is_linear(&self) -> (r: bool)
        ensures
            r == (self.modifier == 0),
    {
        self.modifier == 0
    }

    /// The engine frame format for this buffer's DRM code, if the
    /// engine can consume it. The packed 32-bit codes map by channel
    /// order, and the alpha and no-alpha variants map alike.
    pub fn frame_format(&self) -> (r: Option<FrameFormat>)
        ensures
            self.format == DRM_FORMAT_NV12 ==> r == Some(FrameFormat::Nv12),
            self.format == DRM_FORMAT_ARGB8888 || self.format == DRM_FORMAT_XRGB8888 ==> r
                == Some(FrameFormat::Bgra),
            self.format == DRM_FORMAT_ABGR8888 || self.format == DRM_FORMAT_XBGR8888 ==> r
                == Some(FrameFormat::Rgba),
            self.format == DRM_FORMAT_P010 ==> r == Some(FrameFormat::P010),
            self.format != DRM_FORMAT_NV12 && self.format != DRM_FORMAT_ARGB8888 && self.format
                != DRM_FORMAT_XRGB8888 && self.format != DRM_FORMAT_ABGR8888 && self.format
                != DRM_FORMAT_XBGR8888 && self.format != DRM_FORMAT_P010 ==> r is None,
    {
        if self.format == DRM_FORMAT_NV12 {
            Some(FrameFormat::Nv12)
        } else if self.format == DRM_FORMAT_ARGB8888 || self.format == DRM_FORMAT_XRGB8888 {
            Some(FrameFormat::Bgra)
        } else if self.format == DRM_FORMAT_ABGR8888 || self.format == DRM_FORMAT_XBGR8888 {
            Some(FrameFormat::Rgba)
        } else if self.format == DRM_FORMAT_P010 {
            Some(FrameFormat::P010)
        } else {
            None
        }
    }
}

/// Importer handing DMA-BUFs to a GPU context for zero-copy encoding.
pub struct DmaBufImporter {
}

impl DmaBufImporter {
    /// Create an importer.
    pub fn new() -> (r: Result<DmaBufImporter, Error>)
        ensures
            r is Ok,
    {
        Ok(DmaBufImporter {  })
    }

    /// Register a buffer with the GPU context.
    pub fn import(&self, _dmabuf: &DmaBufInfo) -> (r: Result<(), Error>)
        ensures
            r is Ok,
    {
        Ok(())
    }
}

impl Default for DmaBufImporter {
    fn default() -> (r: DmaBufImporter) {
        DmaBufImporter {  }
    }
}

} // verus!
