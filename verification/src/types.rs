//! Value types shared by every pipeline stage: resolutions, framerates,
//! raw frames, encoded packets, codec parameters, and session statistics.

use vstd::prelude::*;

verus! {

/// Video resolution in pixels.
#[derive(Debug, Clone, Copy, PartialEq, Eq, Hash, Structural)]
pub struct Resolution {
    pub width: u32,
    pub height: u32,
}

impl Resolution {
    pub fn new(width: u32, height: u32) -> (r: Resolution)
        ensures
            r.width == width,
            r.height == height,
    {
        Resolution { width, height }
    }

    /// Total pixel count of the raster.
    pub fn pixels(&self) -> (r: u64)
        ensures
            r == self.width as int * self.height as int,
    {
        proof {
            assert(self.width as int * self.height as int <= 0xFFFF_FFFF * 0xFFFF_FFFF)
                by (nonlinear_arith)
                requires
                    self.width <= 0xFFFF_FFFF,
                    self.height <= 0xFFFF_FFFF,
            ;
        }
        self.width as u64 * self.height as u64
    }
}

impl Default for Resolution {
    /// Full HD, the engine's default target.
    fn default() -> (r: Resolution)
        ensures
            r.width == 1920 && r.height == 1080,
    {
        Resolution { width: 1920, height: 1080 }
    }
}

/// Pixel format of a raw frame.
#[derive(Debug, Clone, Copy, PartialEq, Eq, Hash, Structural)]
pub enum FrameFormat {
    /// Y plane followed by an interleaved UV plane, 4:2:0.
    Nv12,
    /// Three separate planes, 4:2:0.
    Yuv420p,
    /// Three separate planes, 4:4:4.
    Yuv444p,
    /// Packed 32-bit blue-green-red-alpha, the common desktop capture format.
    Bgra,
    /// Packed 32-bit red-green-blue-alpha.
    Rgba,
    /// Packed 24-bit red-green-blue.
    Rgb24,
    /// 10-bit NV12 in 16-bit containers, used for HDR.
    P010,
}

/// Bytes needed for one `width` × `height` frame of `format`, rounded up
/// for the planar 4:2:0 formats whose chroma takes half a byte per pixel.
pub open spec fn spec_frame_bytes(format: FrameFormat, width: int, height: int) -> int {
    match format {
        FrameFormat::Nv12 => (width * height * 3 + 1) / 2,
        FrameFormat::Yuv420p => (width * height * 3 + 1) / 2,
        FrameFormat::Yuv444p => width * height * 3,
        FrameFormat::Bgra => width * height * 4,
        FrameFormat::Rgba => width * height * 4,
        FrameFormat::Rgb24 => width * height * 3,
        FrameFormat::P010 => width * height * 3,
    }
}

impl FrameFormat {
    /// Whether a hardware session consumes this format directly,
    /// with no conversion in front of the encoder.
    pub fn is_nvenc_native(&self) -> (r: bool)
        ensures
            r == (*self == FrameFormat::Nv12 || *self == FrameFormat::P010),
    {
        matches!(self, FrameFormat::Nv12 | FrameFormat::P010)
    }

    /// Buffer size in bytes for one frame of this format.
    pub fn frame_bytes(&self, width: u32, height: u32) -> (r: usize)
        requires
            spec_frame_bytes(*self, width as int, height as int) <= usize::MAX,
        ensures
            r == spec_frame_bytes(*self, width as int, height as int),
    {
        let pixels: u128 = (width as u128) * (height as u128);
        let bytes: u128 = match self {
            FrameFormat::Nv12 => (pixels * 3 + 1) / 2,
            FrameFormat::Yuv420p => (pixels * 3 + 1) / 2,
            FrameFormat::Yuv444p => pixels * 3,
            FrameFormat::Bgra => pixels * 4,
            FrameFormat::Rgba => pixels * 4,
            FrameFormat::Rgb24 => pixels * 3,
            FrameFormat::P010 => pixels * 3,
        };
        bytes as usize
    }

    /// The source-buffer layout of a packed frame, one `(offset,
    /// length)` pair per plane: the luma plane first, then the chroma
    /// planes in order. Packed formats are one plane.
    pub fn plane_layout(&self, width: u32, height: u32) -> (r: Vec<(usize, usize)>)
        requires
            width as int * height as int * 4 <= usize::MAX,
        ensures
            ({
                let wh = width as int * height as int;
                match *self {
                    FrameFormat::Nv12 => r@.len() == 2 && r@[0] == (0usize, wh as usize)
                        && r@[1] == ((wh as usize, (wh / 2) as usize)),
                    FrameFormat::Yuv420p => r@.len() == 3 && r@[0] == (0usize, wh as usize)
                        && r@[1] == ((wh as usize, (wh / 4) as usize)) && r@[2] == ((
                        (wh + wh / 4) as usize,
                        (wh / 4) as usize,
                    )),
                    FrameFormat::Yuv444p => r@.len() == 3 && r@[0] == (0usize, wh as usize)
                        && r@[1] == ((wh as usize, wh as usize)) && r@[2] == ((
                        (2 * wh) as usize,
                        wh as usize,
                    )),
                    FrameFormat::Bgra => r@.len() == 1 && r@[0] == (0usize, (4 * wh) as usize),
                    FrameFormat::Rgba => r@.len() == 1 && r@[0] == (0usize, (4 * wh) as usize),
                    FrameFormat::Rgb24 => r@.len() == 1 && r@[0] == (0usize, (3 * wh) as usize),
                    FrameFormat::P010 => r@.len() == 2 && r@[0] == (0usize, (2 * wh) as usize)
                        && r@[1] == (((2 * wh) as usize, wh as usize)),
                }
            }),
    {
        proof {
            assert(width as int * height as int <= usize::MAX) by (nonlinear_arith)
                requires
                    width as int * height as int * 4 <= usize::MAX,
                    width as int * height as int >= 0,
            ;
        }
        let wh: usize = (width as usize) * (height as usize);
        let mut planes: Vec<(usize, usize)> = Vec::new();
        match self {
            FrameFormat::Nv12 => {
                planes.push((0, wh));
                planes.push((wh, wh / 2));
            },
            FrameFormat::Yuv420p => {
                planes.push((0, wh));
                planes.push((wh, wh / 4));
                planes.push((wh + wh / 4, wh / 4));
            },
            FrameFormat::Yuv444p => {
                planes.push((0, wh));
                planes.push((wh, wh));
                planes.push((2 * wh, wh));
            },
            FrameFormat::Bgra => {
                planes.push((0, 4 * wh));
            },
            FrameFormat::Rgba => {
                planes.push((0, 4 * wh));
            },
            FrameFormat::Rgb24 => {
                planes.push((0, 3 * wh));
            },
            FrameFormat::P010 => {
                planes.push((0, 2 * wh));
                planes.push((2 * wh, wh));
            },
        }
        planes
    }
}

impl Default for FrameFormat {
    /// NV12: what capture negotiates and encoders prefer.
    fn default() -> (r: FrameFormat)
        ensures
            r == FrameFormat::Nv12,
    {
        FrameFormat::Nv12
    }
}

/// A raw video frame.
///
/// The frame owns either a byte buffer large enough for its geometry, or a
/// DMA-BUF file descriptor (then `data` may be empty and the pixels live
/// behind the descriptor).
#[derive(Debug)]
pub struct Frame {
    /// Raw pixel data.
    pub data: Vec<u8>,
    /// Width in pixels.
    pub width: u32,
    /// Height in pixels.
    pub height: u32,
    /// Row stride in bytes.
    pub stride: u32,
    /// Pixel format.
    pub format: FrameFormat,
    /// Presentation timestamp in microseconds.
    pub pts: i64,
    /// Duration in microseconds.
    pub duration: i64,
    /// Whether this frame starts a group of pictures.
    pub is_keyframe: bool,
    /// DMA-BUF file descriptor for zero-copy frames.
    pub dmabuf_fd: Option<i32>,
}

impl Frame {
    /// A frame is well formed when it owns enough bytes for its geometry,
    /// unless the pixels live behind a DMA-BUF descriptor.
    pub open spec fn wf(&self) -> bool {
        self.dmabuf_fd is Some
            || self.data@.len() >= spec_frame_bytes(self.format, self.width as int, self.height as int)
    }

    /// Allocate a zeroed frame for the given geometry.
    pub fn new(width: u32, height: u32, format: FrameFormat) -> (r: Frame)
        requires
            spec_frame_bytes(format, width as int, height as int) <= usize::MAX,
            width * 4 <= u32::MAX,
        ensures
            r.wf(),
            r.width == width,
            r.height == height,
            r.stride == width * 4,
            r.format == format,
            r.pts == 0 && r.duration == 0,
            !r.is_keyframe,
            r.dmabuf_fd is None,
            r.data@.len() == spec_frame_bytes(format, width as int, height as int),
            forall|i: int| 0 <= i < r.data@.len() ==> r.data@[i] == 0u8,
    {
        let size: usize = format.frame_bytes(width, height);
        let mut data: Vec<u8> = Vec::new();
        data.resize(size, 0u8);
        Frame {
            data,
            width,
            height,
            stride: width * 4,
            format,
            pts: 0,
            duration: 0,
            is_keyframe: false,
            dmabuf_fd: None,
        }
    }

    /// Take ownership of an existing buffer.
    pub fn from_data(data: Vec<u8>, width: u32, height: u32, stride: u32, format: FrameFormat) -> (r: Frame)
        requires
            data@.len() >= spec_frame_bytes(format, width as int, height as int),
        ensures
            r.wf(),
            r.data == data,
            r.width == width,
            r.height == height,
            r.stride == stride,
            r.format == format,
            r.pts == 0 && r.duration == 0,
            !r.is_keyframe,
            r.dmabuf_fd is None,
    {
        Frame {
            data,
            width,
            height,
            stride,
            format,
            pts: 0,
            duration: 0,
            is_keyframe: false,
            dmabuf_fd: None,
        }
    }

    /// Geometry of the frame.
    pub fn resolution(&self) -> (r: Resolution)
        ensures
            r.width == self.width,
            r.height == self.height,
    {
        Resolution { width: self.width, height: self.height }
    }

    /// Whether the pixels live behind a DMA-BUF descriptor.
    pub fn is_zero_copy(&self) -> (r: bool)
        ensures
            r == (self.dmabuf_fd is Some),
    {
        self.dmabuf_fd.is_some()
    }

    /// Bytes held in the owned buffer.
    pub fn size_bytes(&self) -> (r: usize)
        ensures
            r == self.data@.len(),
    {
        self.data.len()
    }
}

/// An encoded packet, the unit an encoder emits and a sink writes.
#[derive(Debug)]
pub struct Packet {
    /// Encoded payload.
    pub data: Vec<u8>,
    /// Presentation timestamp.
    pub pts: i64,
    /// Decode timestamp, never after the presentation timestamp.
    pub dts: i64,
    /// Duration in the stream's time base.
    pub duration: i64,
    /// Whether the packet starts a group of pictures.
    pub is_keyframe: bool,
    /// Codec-specific flags.
    pub flags: u32,
}

impl Packet {
    /// Decode order never runs ahead of presentation order.
    pub open spec fn wf(&self) -> bool {
        self.dts <= self.pts
    }

    pub fn new(data: Vec<u8>, pts: i64, dts: i64, is_keyframe: bool) -> (r: Packet)
        ensures
            r.data == data,
            r.pts == pts,
            r.dts == dts,
            r.duration == 0,
            r.is_keyframe == is_keyframe,
            r.flags == 0,
    {
        Packet { data, pts, dts, duration: 0, is_keyframe, flags: 0 }
    }

    /// Payload size in bytes.
    pub fn size(&self) -> (r: usize)
        ensures
            r == self.data@.len(),
    {
        self.data.len()
    }
}

/// A rational framerate: `num` frames per `den` seconds.
#[derive(Debug, Clone, Copy, PartialEq, Eq, Structural)]
pub struct Framerate {
    pub num: u32,
    pub den: u32,
}

impl Framerate {
    pub fn new(num: u32, den: u32) -> (r: Framerate)
        ensures
            r.num == num,
            r.den == den,
    {
        Framerate { num, den }
    }

    /// Whole frames per second; a zero denominator reads as `num`.
    pub fn fps(&self) -> (r: u32)
        ensures
            self.den == 0 ==> r == self.num,
            self.den != 0 ==> r == self.num as int / self.den as int,
    {
        if self.den == 0 {
            self.num
        } else {
            self.num / self.den
        }
    }

    /// Duration of one frame in microseconds, rounded down.
    pub fn frame_duration_us(&self) -> (r: i64)
        requires
            self.num != 0,
        ensures
            r == 1_000_000 * self.den as int / self.num as int,
    {
        (1_000_000i64 * self.den as i64) / self.num as i64
    }
}

impl Default for Framerate {
    /// 60 frames per second.
    fn default() -> (r: Framerate)
        ensures
            r.num == 60 && r.den == 1,
    {
        Framerate { num: 60, den: 1 }
    }
}

/// Everything a muxer needs to declare a video stream: codec, out-of-band
/// headers, geometry, framerate, time base and bitrate. Published exactly
/// once per encoder session, after the first packet exists.
#[derive(Debug, Clone)]
pub struct CodecParams {
    /// Video codec of the elementary stream.
    pub codec: crate::encode::Codec,
    /// Codec-specific headers (SPS/PPS, VPS/SPS/PPS, or OBU headers).
    pub extradata: Vec<u8>,
    /// Encoded resolution.
    pub resolution: Resolution,
    /// Encoded framerate.
    pub framerate: Framerate,
    /// Time base numerator.
    pub time_base_num: i32,
    /// Time base denominator.
    pub time_base_den: i32,
    /// Bitrate in bits per second.
    pub bitrate: i64,
}

impl Default for CodecParams {
    /// The fallback parameter set used when an encoder dies before its
    /// first packet: H.264, 1920×1080, 60 fps, 6 Mbps, millisecond time base.
    fn default() -> (r: CodecParams)
        ensures
            r.codec == crate::encode::Codec::H264,
            r.extradata@.len() == 0,
            r.resolution.width == 1920 && r.resolution.height == 1080,
            r.framerate.num == 60 && r.framerate.den == 1,
            r.time_base_num == 1 && r.time_base_den == 1000,
            r.bitrate == 6_000_000,
    {
        CodecParams {
            codec: crate::encode::Codec::H264,
            extradata: Vec::new(),
            resolution: Resolution { width: 1920, height: 1080 },
            framerate: Framerate { num: 60, den: 1 },
            time_base_num: 1,
            time_base_den: 1000,
            bitrate: 6_000_000,
        }
    }
}

/// Monotone session counters published by the pipeline.
#[derive(Debug, Clone)]
pub struct Stats {
    /// Frames delivered by the capture stage.
    pub frames_captured: u64,
    /// Frames that produced an encoded packet.
    pub frames_encoded: u64,
    /// Frames dropped under backpressure.
    pub frames_dropped: u64,
    /// Bitrate over the running session in kilobits per second.
    pub current_bitrate_kbps: u64,
    /// Total bytes handed to the output stage.
    pub bytes_written: u64,
    /// Hardware encoder utilization, 0 to 100.
    pub gpu_encoder_util: u8,
}

impl Default for Stats {
    fn default() -> (r: Stats)
        ensures
            r.frames_captured == 0,
            r.frames_encoded == 0,
            r.frames_dropped == 0,
            r.current_bitrate_kbps == 0,
            r.bytes_written == 0,
            r.gpu_encoder_util == 0,
    {
        Stats {
            frames_captured: 0,
            frames_encoded: 0,
            frames_dropped: 0,
            current_bitrate_kbps: 0,
            bytes_written: 0,
            gpu_encoder_util: 0,
        }
    }
}

} // verus!
