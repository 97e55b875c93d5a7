//! High-dynamic-range support: colorspace tags, HDR configuration, and
//! the 8-bit to 10-bit pixel promotions.
//!
//! P010 stores each 10-bit sample in a 16-bit little-endian container
//! with the payload in the high bits, so an 8-bit value `b` becomes the
//! byte pair `(b % 4) * 64, b / 4` — that is, `b << 6` split across two
//! bytes.

use vstd::prelude::*;
use vstd::string::StringExecFns;
use crate::error::Error;
use crate::types::FrameFormat;

verus! {

/// Transfer function of the encoded signal.
#[derive(Debug, Clone, Copy, PartialEq, Eq, Structural)]
pub enum TransferFunction {
    /// Standard dynamic range gamma.
    Sdr,
    /// Perceptual quantizer (SMPTE ST 2084), used by HDR10.
    Pq,
    /// Hybrid log-gamma (ARIB STD-B67).
    Hlg,
}

impl TransferFunction {
    /// The media library's `color_trc` code for this transfer.
    pub fn ffmpeg_trc(&self) -> (r: i32)
        ensures
            *self == TransferFunction::Sdr ==> r == 1,
            *self == TransferFunction::Pq ==> r == 16,
            *self == TransferFunction::Hlg ==> r == 18,
    {
        match self {
            TransferFunction::Sdr => 1,
            TransferFunction::Pq => 16,
            TransferFunction::Hlg => 18,
        }
    }
}

impl Default for TransferFunction {
    fn default() -> (r: TransferFunction)
        ensures
            r == TransferFunction::Sdr,
    {
        TransferFunction::Sdr
    }
}

/// Color primaries (gamut) of the encoded signal.
#[derive(Debug, Clone, Copy, PartialEq, Eq, Structural)]
pub enum ColorPrimaries {
    /// BT.709, the SDR/HD gamut.
    Bt709,
    /// BT.2020, the HDR/UHD gamut.
    Bt2020,
    /// DCI-P3, the cinema gamut.
    DciP3,
}

impl ColorPrimaries {
    /// The media library's `color_primaries` code.
    pub fn ffmpeg_primaries(&self) -> (r: i32)
        ensures
            *self == ColorPrimaries::Bt709 ==> r == 1,
            *self == ColorPrimaries::Bt2020 ==> r == 9,
            *self == ColorPrimaries::DciP3 ==> r == 11,
    {
        match self {
            ColorPrimaries::Bt709 => 1,
            ColorPrimaries::Bt2020 => 9,
            ColorPrimaries::DciP3 => 11,
        }
    }
}

impl Default for ColorPrimaries {
    fn default() -> (r: ColorPrimaries)
        ensures
            r == ColorPrimaries::Bt709,
    {
        ColorPrimaries::Bt709
    }
}

/// Color matrix coefficients of the encoded signal.
#[derive(Debug, Clone, Copy, PartialEq, Eq, Structural)]
pub enum ColorMatrix {
    /// BT.709.
    Bt709,
    /// BT.2020, non-constant luminance.
    Bt2020Ncl,
    /// BT.2020, constant luminance.
    Bt2020Cl,
}

impl ColorMatrix {
    /// The media library's `colorspace` code.
    pub fn ffmpeg_colorspace(&self) -> (r: i32)
        ensures
            *self == ColorMatrix::Bt709 ==> r == 1,
            *self == ColorMatrix::Bt2020Ncl ==> r == 9,
            *self == ColorMatrix::Bt2020Cl ==> r == 10,
    {
        match self {
            ColorMatrix::Bt709 => 1,
            ColorMatrix::Bt2020Ncl => 9,
            ColorMatrix::Bt2020Cl => 10,
        }
    }
}

impl Default for ColorMatrix {
    fn default() -> (r: ColorMatrix)
        ensures
            r == ColorMatrix::Bt709,
    {
        ColorMatrix::Bt709
    }
}

/// Content light level information (MaxCLL and MaxFALL, in nits).
#[derive(Debug, Clone, Copy, PartialEq, Eq, Structural)]
pub struct ContentLightLevel {
    /// Maximum content light level.
    pub max_cll: u16,
    /// Maximum frame-average light level.
    pub max_fall: u16,
}

impl ContentLightLevel {
    pub fn new(max_cll: u16, max_fall: u16) -> (r: ContentLightLevel)
        ensures
            r.max_cll == max_cll,
            r.max_fall == max_fall,
    {
        ContentLightLevel { max_cll, max_fall }
    }

    /// Typical values for HDR content.
    pub fn default_hdr() -> (r: ContentLightLevel)
        ensures
            r.max_cll == 1000,
            r.max_fall == 400,
    {
        ContentLightLevel { max_cll: 1000, max_fall: 400 }
    }
}

/// Complete HDR configuration carried by the encoder config.
#[derive(Debug, Clone, Copy, PartialEq, Eq, Structural)]
pub struct HdrConfig {
    /// Transfer function.
    pub transfer: TransferFunction,
    /// Color primaries.
    pub primaries: ColorPrimaries,
    /// Color matrix.
    pub matrix: ColorMatrix,
    /// Content light level, where the content declares one.
    pub content_light: Option<ContentLightLevel>,
    /// Sample bit depth: 8 for SDR, 10 for HDR.
    pub bit_depth: u8,
}

/// The HDR10 configuration value: PQ transfer over BT.2020, 10-bit,
/// with the typical content light levels.
pub open spec fn spec_hdr10() -> HdrConfig {
    HdrConfig {
        transfer: TransferFunction::Pq,
        primaries: ColorPrimaries::Bt2020,
        matrix: ColorMatrix::Bt2020Ncl,
        content_light: Some(ContentLightLevel { max_cll: 1000u16, max_fall: 400u16 }),
        bit_depth: 10u8,
    }
}

impl HdrConfig {
    /// Standard dynamic range.
    pub fn sdr() -> (r: HdrConfig)
        ensures
            r.transfer == TransferFunction::Sdr,
            r.primaries == ColorPrimaries::Bt709,
            r.matrix == ColorMatrix::Bt709,
            r.content_light is None,
            r.bit_depth == 8,
    {
        HdrConfig {
            transfer: TransferFunction::Sdr,
            primaries: ColorPrimaries::Bt709,
            matrix: ColorMatrix::Bt709,
            content_light: None,
            bit_depth: 8,
        }
    }

    /// HDR10: PQ transfer over BT.2020, 10-bit.
    pub fn hdr10() -> (r: HdrConfig)
        ensures
            r == spec_hdr10(),
    {
        HdrConfig {
            transfer: TransferFunction::Pq,
            primaries: ColorPrimaries::Bt2020,
            matrix: ColorMatrix::Bt2020Ncl,
            content_light: Some(ContentLightLevel::default_hdr()),
            bit_depth: 10,
        }
    }

    /// HLG: hybrid log-gamma over BT.2020, 10-bit.
    pub fn hlg() -> (r: HdrConfig)
        ensures
            r.transfer == TransferFunction::Hlg,
            r.primaries == ColorPrimaries::Bt2020,
            r.matrix == ColorMatrix::Bt2020Ncl,
            r.content_light is None,
            r.bit_depth == 10,
    {
        HdrConfig {
            transfer: TransferFunction::Hlg,
            primaries: ColorPrimaries::Bt2020,
            matrix: ColorMatrix::Bt2020Ncl,
            content_light: None,
            bit_depth: 10,
        }
    }

    /// Whether this configuration encodes high dynamic range.
    pub fn is_hdr(&self) -> (r: bool)
        ensures
            r == (self.transfer != TransferFunction::Sdr),
    {
        !matches!(self.transfer, TransferFunction::Sdr)
    }

    /// The pixel format the encoder must run in under this configuration.
    pub fn pixel_format(&self) -> (r: FrameFormat)
        ensures
            self.bit_depth >= 10 ==> r == FrameFormat::P010,
            self.bit_depth < 10 ==> r == FrameFormat::Nv12,
    {
        if self.bit_depth >= 10 {
            FrameFormat::P010
        } else {
            FrameFormat::Nv12
        }
    }
}

impl Default for HdrConfig {
    fn default() -> (r: HdrConfig)
        ensures
            r.transfer == TransferFunction::Sdr,
            r.primaries == ColorPrimaries::Bt709,
            r.matrix == ColorMatrix::Bt709,
            r.content_light is None,
            r.bit_depth == 8,
    {
        HdrConfig::sdr()
    }
}

/// Low byte of the 16-bit little-endian P010 sample made from the 8-bit
/// value `b`: the two low bits of `b`, shifted to the top of the byte.
pub open spec fn spec_p010_lo(b: int) -> int {
    (b % 4) * 64
}

/// High byte of the 16-bit little-endian P010 sample made from `b`.
pub open spec fn spec_p010_hi(b: int) -> int {
    b / 4
}

/// Luma of an 8-bit RGB pixel under the BT.2020 coefficients, in
/// fixed-point parts per ten thousand.
pub open spec fn spec_bt2020_y(r: int, g: int, b: int) -> int {
    (2627 * r + 6780 * g + 593 * b) / 10000
}

/// Blue-difference chroma of an 8-bit RGB pixel under BT.2020, biased to
/// the unsigned range around 128.
pub open spec fn spec_bt2020_u(r: int, g: int, b: int) -> int {
    (5000 * b - 1396 * r - 3604 * g + 1_280_000) / 10000
}

/// Red-difference chroma of an 8-bit RGB pixel under BT.2020, biased to
/// the unsigned range around 128.
pub open spec fn spec_bt2020_v(r: int, g: int, b: int) -> int {
    (5000 * r - 4598 * g - 402 * b + 1_280_000) / 10000
}

/// The two bytes of the promoted sample `i` are correct in `out`:
/// the 16-bit little-endian P010 container of the 8-bit input sample.
pub open spec fn spec_p010_pair_ok(out: Seq<u8>, input: Seq<u8>, i: int) -> bool {
    &&& out[2 * i] == spec_p010_lo(input[i] as int)
    &&& out[2 * i + 1] == spec_p010_hi(input[i] as int)
}

/// The two luma bytes for pixel `q` are correct in `out`: the BT.2020
/// luma of the BGRA pixel at `q`, as a 16-bit little-endian P010 sample.
pub open spec fn spec_luma_ok(out: Seq<u8>, input: Seq<u8>, q: int) -> bool {
    let y = spec_bt2020_y(input[4 * q + 2] as int, input[4 * q + 1] as int, input[4 * q] as int);
    &&& out[2 * q] == spec_p010_lo(y)
    &&& out[2 * q + 1] == spec_p010_hi(y)
}

/// Convert an 8-bit NV12 buffer to P010 by promoting every sample into a
/// 16-bit container. Fails exactly when the input is shorter than one
/// NV12 frame of the given geometry.
pub fn nv12_to_p010(input: &[u8], width: usize, height: usize) -> (r: Result<Vec<u8>, Error>)
    requires
        width * height <= usize::MAX / 8,
    ensures
        match r {
            Ok(out) => {
                let y_count = width * height;
                let uv_count = (width / 2) * (height / 2) * 2;
                &&& input@.len() >= y_count + uv_count
                &&& out@.len() == 2 * y_count + 2 * uv_count
                &&& forall|i: int| 0 <= i < y_count + uv_count
                    ==> #[trigger] spec_p010_pair_ok(out@, input@, i)
            },
            Err(e) => {
                &&& e is ColorspaceConversion
                &&& input@.len() < width * height + (width / 2) * (height / 2) * 2
            },
        },
{
    let y_count: usize = width * height;
    proof {
        assert((width / 2) * (height / 2) <= width * height) by (nonlinear_arith);
    }
    let uv_count: usize = (width / 2) * (height / 2) * 2;
    let total: usize = y_count + uv_count;
    if input.len() < total {
        return Err(Error::ColorspaceConversion(String::from_str("input buffer too small")));
    }

    let mut out: Vec<u8> = Vec::new();
    let mut i: usize = 0;
    while i < total
        invariant
            0 <= i <= total,
            total <= input@.len(),
            total <= usize::MAX / 2,
            out@.len() == 2 * i,
            forall|j: int| 0 <= j < i ==> #[trigger] spec_p010_pair_ok(out@, input@, j),
        decreases total - i,
    {
        let b: u8 = input[i];
        let ghost out0: Seq<u8> = out@;
        out.push((b % 4) * 64);
        out.push(b / 4);
        proof {
            assert(forall|k: int| 0 <= k < out0.len() ==> #[trigger] out@[k] == out0[k]);
            assert(spec_p010_pair_ok(out@, input@, i as int));
            assert forall|j: int| 0 <= j < i as int implies #[trigger] spec_p010_pair_ok(
                out@, input@, j,
            ) by {
                assert(spec_p010_pair_ok(out0, input@, j));
                assert(out@[2 * j] == out0[2 * j]);
                assert(out@[2 * j + 1] == out0[2 * j + 1]);
            }
        }
        i = i + 1;
    }
    proof {
        assert(i == total);
        assert(out@.len() == 2 * (width * height) + 2 * ((width / 2) * (height / 2) * 2));
    }
    Ok(out)
}

/// The chroma byte quadruple for the 2x2 block at subsampled row `r` and
/// column `c` is correct in `out`: U then V, each as a 16-bit sample,
/// taken from the block's top-left pixel.
pub open spec fn spec_chroma_ok(
    out: Seq<u8>,
    input: Seq<u8>,
    width: int,
    height: int,
    r: int,
    c: int,
) -> bool {
    let base = 2 * (width * height) + (r * (width / 2) + c) * 4;
    let src = (2 * r * width + 2 * c) * 4;
    let u = spec_bt2020_u(input[src + 2] as int, input[src + 1] as int, input[src] as int);
    let v = spec_bt2020_v(input[src + 2] as int, input[src + 1] as int, input[src] as int);
    &&& out[base] == spec_p010_lo(u)
    &&& out[base + 1] == spec_p010_hi(u)
    &&& out[base + 2] == spec_p010_lo(v)
    &&& out[base + 3] == spec_p010_hi(v)
}

/// Convert a packed BGRA buffer to P010, computing luma and subsampled
/// chroma with fixed-point BT.2020 coefficients. The geometry must be
/// even on both axes, as 4:2:0 chroma subsampling demands.
pub fn bgra_to_p010(input: &[u8], width: usize, height: usize) -> (r: Result<Vec<u8>, Error>)
    requires
        width % 2 == 0,
        height % 2 == 0,
        width * height <= usize::MAX / 8,
    ensures
        match r {
            Ok(out) => {
                &&& input@.len() >= width * height * 4
                &&& out@.len() == 2 * (width * height) + (width / 2) * (height / 2) * 4
                &&& forall|p: int| 0 <= p < width * height
                    ==> #[trigger] spec_luma_ok(out@, input@, p)
                &&& forall|r2: int, c2: int|
                    0 <= r2 < height / 2 && 0 <= c2 < width / 2
                        ==> #[trigger] spec_chroma_ok(out@, input@, width as int, height as int, r2, c2)
            },
            Err(e) => {
                &&& e is ColorspaceConversion
                &&& input@.len() < width * height * 4
            },
        },
{
    let pixel_count: usize = width * height;
    if input.len() < pixel_count * 4 {
        return Err(Error::ColorspaceConversion(String::from_str("input buffer too small")));
    }

    let mut out: Vec<u8> = Vec::new();

    // Luma plane: one 16-bit sample per pixel, in raster order.
    let mut p: usize = 0;
    while p < pixel_count
        invariant
            0 <= p <= pixel_count,
            pixel_count == width * height,
            pixel_count * 4 <= input@.len(),
            pixel_count <= usize::MAX / 8,
            out@.len() == 2 * p,
            forall|q: int| 0 <= q < p ==> #[trigger] spec_luma_ok(out@, input@, q),
        decreases pixel_count - p,
    {
        proof {
            assert(4 * p + 3 < 4 * pixel_count) by (nonlinear_arith)
                requires
                    0 <= p < pixel_count,
            ;
        }
        let b: u32 = input[4 * p] as u32;
        let g: u32 = input[4 * p + 1] as u32;
        let rr: u32 = input[4 * p + 2] as u32;
        let y: u32 = (2627 * rr + 6780 * g + 593 * b) / 10000;
        let ghost out0: Seq<u8> = out@;
        out.push(((y % 4) * 64) as u8);
        out.push((y / 4) as u8);
        proof {
            let yv = spec_bt2020_y(
                input@[4 * (p as int) + 2] as int,
                input@[4 * (p as int) + 1] as int,
                input@[4 * (p as int)] as int,
            );
            assert(y as int == yv);
            assert(forall|k: int| 0 <= k < out0.len() ==> #[trigger] out@[k] == out0[k]);
            assert(spec_luma_ok(out@, input@, p as int));
            assert forall|q: int| 0 <= q < p as int implies #[trigger] spec_luma_ok(
                out@, input@, q,
            ) by {
                assert(spec_luma_ok(out0, input@, q));
                assert(out@[2 * q] == out0[2 * q]);
                assert(out@[2 * q + 1] == out0[2 * q + 1]);
            }
        }
        p = p + 1;
    }

    // Chroma plane: interleaved U and V, one pair per 2x2 pixel block.
    proof {
        assert((width / 2) * (height / 2) <= width * height) by (nonlinear_arith);
    }
    let half_w: usize = width / 2;
    let half_h: usize = height / 2;
    let mut row: usize = 0;
    while row < half_h
        invariant
            0 <= row <= half_h,
            half_w == width / 2,
            half_h == height / 2,
            width % 2 == 0,
            height % 2 == 0,
            pixel_count == width * height,
            pixel_count * 4 <= input@.len(),
            pixel_count <= usize::MAX / 8,
            half_w * half_h <= pixel_count,
            out@.len() == 2 * pixel_count + row * half_w * 4,
            forall|q: int| 0 <= q < pixel_count ==> #[trigger] spec_luma_ok(out@, input@, q),
            forall|r2: int, c2: int|
                0 <= r2 < row && 0 <= c2 < half_w
                    ==> #[trigger] spec_chroma_ok(out@, input@, width as int, height as int, r2, c2),
        decreases half_h - row,
    {
        let mut col: usize = 0;
        while col < half_w
            invariant
                0 <= col <= half_w,
                0 <= row < half_h,
                half_w == width / 2,
                half_h == height / 2,
                width % 2 == 0,
                height % 2 == 0,
                pixel_count == width * height,
                pixel_count * 4 <= input@.len(),
                pixel_count <= usize::MAX / 8,
                half_w * half_h <= pixel_count,
                out@.len() == 2 * pixel_count + (row * half_w + col) * 4,
                forall|q: int| 0 <= q < pixel_count ==> #[trigger] spec_luma_ok(out@, input@, q),
                forall|r2: int, c2: int|
                    0 <= r2 < row && 0 <= c2 < half_w
                        ==> #[trigger] spec_chroma_ok(out@, input@, width as int, height as int, r2, c2),
                forall|c2: int|
                    0 <= c2 < col
                        ==> #[trigger] spec_chroma_ok(
                            out@, input@, width as int, height as int, row as int, c2,
                        ),
            decreases half_w - col,
        {
            proof {
                assert(2 * row * width + 2 * col + 1 < width * height) by (nonlinear_arith)
                    requires
                        0 <= row < height / 2,
                        0 <= col < width / 2,
                        width % 2 == 0,
                        height % 2 == 0,
                ;
                assert(row * half_w + col + 1 <= half_w * half_h) by (nonlinear_arith)
                    requires
                        0 <= row < half_h,
                        0 <= col < half_w,
                ;
            }
            let src: usize = (2 * row * width + 2 * col) * 4;
            let ghost out0: Seq<u8> = out@;
            let b: u32 = input[src] as u32;
            let g: u32 = input[src + 1] as u32;
            let rr: u32 = input[src + 2] as u32;
            let u: u32 = (5000 * b + 1_280_000 - 1396 * rr - 3604 * g) / 10000;
            let v: u32 = (5000 * rr + 1_280_000 - 4598 * g - 402 * b) / 10000;
            out.push(((u % 4) * 64) as u8);
            out.push((u / 4) as u8);
            out.push(((v % 4) * 64) as u8);
            out.push((v / 4) as u8);
            proof {
                assert(out@.len() == out0.len() + 4);
                assert(forall|i: int| 0 <= i < out0.len() ==> #[trigger] out@[i] == out0[i]);
                assert forall|q: int| 0 <= q < pixel_count
                    implies #[trigger] spec_luma_ok(out@, input@, q) by {
                    assert(spec_luma_ok(out0, input@, q));
                    assert(out@[2 * q] == out0[2 * q]);
                    assert(out@[2 * q + 1] == out0[2 * q + 1]);
                }
                assert(spec_bt2020_u(rr as int, g as int, b as int)
                    == (5000 * (b as int) + 1_280_000 - 1396 * (rr as int) - 3604 * (g as int)) / 10000);
                assert(spec_chroma_ok(out@, input@, width as int, height as int, row as int, col as int));
                assert forall|r2: int, c2: int|
                    0 <= r2 < row && 0 <= c2 < half_w
                        implies #[trigger] spec_chroma_ok(
                            out@, input@, width as int, height as int, r2, c2,
                        ) by {
                    assert((r2 * (half_w as int) + c2) * 4 + 4 <= ((row as int) * (half_w as int) + (col as int)) * 4)
                        by (nonlinear_arith)
                        requires
                            0 <= r2 < row as int,
                            0 <= c2 < half_w as int,
                            0 <= col as int,
                    ;
                    assert(spec_chroma_ok(out0, input@, width as int, height as int, r2, c2));
                }
                assert forall|c2: int|
                    0 <= c2 < col + 1
                        implies #[trigger] spec_chroma_ok(
                            out@, input@, width as int, height as int, row as int, c2,
                        ) by {
                    if c2 < col {
                        assert(spec_chroma_ok(out0, input@, width as int, height as int, row as int, c2));
                    }
                }
            }
            col = col + 1;
        }
        proof {
            assert((row + 1) * half_w == row * half_w + half_w) by (nonlinear_arith);
        }
        row = row + 1;
    }
    proof {
        assert(half_h * half_w * 4 == half_w * half_h * 4) by (nonlinear_arith);
    }
    Ok(out)
}

} // verus!
