//! Pixel-format conversion.
//!
//! The converter computes the common capture-to-encoder paths directly:
//! the identity, the BGRA/RGBA red-blue swap, and the 8-bit to 10-bit
//! P010 promotions. Conversions outside this set need the general
//! software scaler of the media library, which the host program runs;
//! here they report a conversion error.

use vstd::prelude::*;
use vstd::string::StringExecFns;
use crate::error::Error;
use crate::processing::hdr;
use crate::types::FrameFormat;

verus! {

/// `s` with the first and third byte of every complete 4-byte group
/// exchanged; bytes past the last complete group are untouched.
pub open spec fn spec_swap_rb(s: Seq<u8>) -> Seq<u8> {
    Seq::new(
        s.len(),
        |i: int|
            if i < 4 * (s.len() / 4) {
                if i % 4 == 0 {
                    s[i + 2]
                } else if i % 4 == 2 {
                    s[i - 2]
                } else {
                    s[i]
                }
            } else {
                s[i]
            },
    )
}

/// Exchanging red and blue twice restores every pixel.
pub proof fn lemma_swap_rb_involution(s: Seq<u8>)
    ensures
        spec_swap_rb(spec_swap_rb(s)) =~= s,
{
    let t = spec_swap_rb(s);
    assert(t.len() == s.len());
    assert forall|i: int| 0 <= i < s.len() implies spec_swap_rb(t)[i] == s[i] by {
        if i < 4 * (s.len() / 4) {
            if i % 4 == 0 {
                assert((i + 2) % 4 == 2);
                assert(t[i + 2] == s[i]);
            } else if i % 4 == 2 {
                assert((i - 2) % 4 == 0);
                assert(t[i - 2] == s[i]);
            }
        }
    }
}

/// Swap the red and blue channel of a packed 4-byte-per-pixel buffer.
/// Bytes past the last complete pixel are copied through.
pub fn bgra_rgba_swap(input: &[u8]) -> (r: Result<Vec<u8>, Error>)
    ensures
        r matches Ok(out) && out@ == spec_swap_rb(input@),
{
    let len: usize = input.len();
    let full: usize = (len / 4) * 4;
    let mut out: Vec<u8> = Vec::new();
    let mut i: usize = 0;
    while i < full
        invariant
            0 <= i <= full,
            i % 4 == 0,
            full == (len / 4) * 4,
            len == input@.len(),
            out@.len() == i,
            forall|j: int| 0 <= j < i ==> #[trigger] out@[j] == spec_swap_rb(input@)[j],
        decreases full - i,
    {
        out.push(input[i + 2]);
        out.push(input[i + 1]);
        out.push(input[i]);
        out.push(input[i + 3]);
        i = i + 4;
    }
    while i < len
        invariant
            full <= i <= len || (i == full && full <= len),
            full == (len / 4) * 4,
            len == input@.len(),
            out@.len() == i,
            forall|j: int| 0 <= j < i ==> #[trigger] out@[j] == spec_swap_rb(input@)[j],
        decreases len - i,
    {
        out.push(input[i]);
        i = i + 1;
    }
    proof {
        assert(out@ =~= spec_swap_rb(input@));
    }
    Ok(out)
}

/// Luma of an 8-bit RGB pixel under the BT.601 coefficients, in
/// fixed-point parts per thousand.
pub open spec fn spec_bt601_y(r: int, g: int, b: int) -> int {
    (299 * r + 587 * g + 114 * b) / 1000
}

/// Blue-difference chroma of an 8-bit RGB pixel under BT.601, biased
/// to the unsigned range around 128.
pub open spec fn spec_bt601_u(r: int, g: int, b: int) -> int {
    (500 * b - 169 * r - 331 * g + 128_000) / 1000
}

/// Red-difference chroma of an 8-bit RGB pixel under BT.601, biased to
/// the unsigned range around 128.
pub open spec fn spec_bt601_v(r: int, g: int, b: int) -> int {
    (500 * r - 419 * g - 81 * b + 128_000) / 1000
}

/// The luma byte for pixel `q` is correct in `out`: the BT.601 luma of
/// the BGRA pixel at `q`.
pub open spec fn spec_nv12_luma_ok(out: Seq<u8>, input: Seq<u8>, q: int) -> bool {
    out[q] == spec_bt601_y(input[4 * q + 2] as int, input[4 * q + 1] as int, input[4 * q] as int)
}

/// The chroma byte pair for the 2x2 block at subsampled row `r` and
/// column `c` is correct in `out`: U then V, taken from the block's
/// top-left pixel.
pub open spec fn spec_nv12_chroma_ok(
    out: Seq<u8>,
    input: Seq<u8>,
    width: int,
    height: int,
    r: int,
    c: int,
) -> bool {
    let base = width * height + (r * (width / 2) + c) * 2;
    let src = (2 * r * width + 2 * c) * 4;
    let u = spec_bt601_u(input[src + 2] as int, input[src + 1] as int, input[src] as int);
    let v = spec_bt601_v(input[src + 2] as int, input[src + 1] as int, input[src] as int);
    &&& out[base] == u
    &&& out[base + 1] == v
}

/// Convert a packed BGRA buffer to NV12, computing luma and subsampled
/// chroma with fixed-point BT.601 coefficients. The geometry must be
/// even on both axes, as 4:2:0 chroma subsampling demands.
pub fn bgra_to_nv12(input: &[u8], width: usize, height: usize) -> (r: Result<Vec<u8>, Error>)
    requires
        width % 2 == 0,
        height % 2 == 0,
        width * height <= usize::MAX / 8,
    ensures
        match r {
            Ok(out) => {
                &&& input@.len() >= width * height * 4
                &&& out@.len() == width * height + (width / 2) * (height / 2) * 2
                &&& forall|p: int| 0 <= p < width * height
                    ==> #[trigger] spec_nv12_luma_ok(out@, input@, p)
                &&& forall|r2: int, c2: int|
                    0 <= r2 < height / 2 && 0 <= c2 < width / 2
                        ==> #[trigger] spec_nv12_chroma_ok(
                        out@, input@, width as int, height as int, r2, c2,
                    )
            },
            Err(e) => {
                &&& e is ColorspaceConversion
                &&& input@.len() < width * height * 4
            },
        },
{
    let pixel_count: usize = width * height;
    if input.len() < pixel_count * 4 {
        return Err(Error::ColorspaceConversion(String::from_str("input buffer too small")));
    }

    let mut out: Vec<u8> = Vec::new();

    // Luma plane: one byte per pixel, in raster order.
    let mut p: usize = 0;
    while p < pixel_count
        invariant
            0 <= p <= pixel_count,
            pixel_count == width * height,
            pixel_count * 4 <= input@.len(),
            pixel_count <= usize::MAX / 8,
            out@.len() == p,
            forall|q: int| 0 <= q < p ==> #[trigger] spec_nv12_luma_ok(out@, input@, q),
        decreases pixel_count - p,
    {
        proof {
            assert(4 * p + 3 < 4 * pixel_count) by (nonlinear_arith)
                requires
                    0 <= p < pixel_count,
            ;
        }
        let b: u32 = input[4 * p] as u32;
        let g: u32 = input[4 * p + 1] as u32;
        let rr: u32 = input[4 * p + 2] as u32;
        let y: u32 = (299 * rr + 587 * g + 114 * b) / 1000;
        let ghost out0: Seq<u8> = out@;
        out.push(y as u8);
        proof {
            assert(forall|k: int| 0 <= k < out0.len() ==> #[trigger] out@[k] == out0[k]);
            assert(spec_nv12_luma_ok(out@, input@, p as int));
            assert forall|q: int| 0 <= q < p as int implies #[trigger] spec_nv12_luma_ok(
                out@, input@, q,
            ) by {
                assert(spec_nv12_luma_ok(out0, input@, q));
                assert(out@[q] == out0[q]);
            }
        }
        p = p + 1;
    }

    // Chroma plane: one interleaved UV pair per 2x2 pixel block.
    proof {
        assert((width / 2) * (height / 2) <= width * height) by (nonlinear_arith);
    }
    let half_w: usize = width / 2;
    let half_h: usize = height / 2;
    let mut row: usize = 0;
    while row < half_h
        invariant
            0 <= row <= half_h,
            half_w == width / 2,
            half_h == height / 2,
            width % 2 == 0,
            height % 2 == 0,
            pixel_count == width * height,
            pixel_count * 4 <= input@.len(),
            pixel_count <= usize::MAX / 8,
            half_w * half_h <= pixel_count,
            out@.len() == pixel_count + row * half_w * 2,
            forall|q: int| 0 <= q < pixel_count ==> #[trigger] spec_nv12_luma_ok(out@, input@, q),
            forall|r2: int, c2: int|
                0 <= r2 < row && 0 <= c2 < half_w
                    ==> #[trigger] spec_nv12_chroma_ok(
                    out@, input@, width as int, height as int, r2, c2,
                ),
        decreases half_h - row,
    {
        let mut col: usize = 0;
        while col < half_w
            invariant
                0 <= col <= half_w,
                0 <= row < half_h,
                half_w == width / 2,
                half_h == height / 2,
                width % 2 == 0,
                height % 2 == 0,
                pixel_count == width * height,
                pixel_count * 4 <= input@.len(),
                pixel_count <= usize::MAX / 8,
                half_w * half_h <= pixel_count,
                out@.len() == pixel_count + (row * half_w + col) * 2,
                forall|q: int| 0 <= q < pixel_count ==> #[trigger] spec_nv12_luma_ok(
                    out@, input@, q,
                ),
                forall|r2: int, c2: int|
                    0 <= r2 < row && 0 <= c2 < half_w
                        ==> #[trigger] spec_nv12_chroma_ok(
                        out@, input@, width as int, height as int, r2, c2,
                    ),
                forall|c2: int|
                    0 <= c2 < col
                        ==> #[trigger] spec_nv12_chroma_ok(
                        out@, input@, width as int, height as int, row as int, c2,
                    ),
            decreases half_w - col,
        {
            proof {
                assert(2 * row * width + 2 * col + 1 < width * height) by (nonlinear_arith)
                    requires
                        0 <= row < height / 2,
                        0 <= col < width / 2,
                        width % 2 == 0,
                        height % 2 == 0,
                ;
                assert(row * half_w + col + 1 <= half_w * half_h) by (nonlinear_arith)
                    requires
                        0 <= row < half_h,
                        0 <= col < half_w,
                ;
            }
            let src: usize = (2 * row * width + 2 * col) * 4;
            let ghost out0: Seq<u8> = out@;
            let b: u32 = input[src] as u32;
            let g: u32 = input[src + 1] as u32;
            let rr: u32 = input[src + 2] as u32;
            let u: u32 = (500 * b + 128_000 - 169 * rr - 331 * g) / 1000;
            let v: u32 = (500 * rr + 128_000 - 419 * g - 81 * b) / 1000;
            out.push(u as u8);
            out.push(v as u8);
            proof {
                assert(out@.len() == out0.len() + 2);
                assert(forall|k: int| 0 <= k < out0.len() ==> #[trigger] out@[k] == out0[k]);
                assert(spec_bt601_u(rr as int, g as int, b as int) == (500 * (b as int) + 128_000
                    - 169 * (rr as int) - 331 * (g as int)) / 1000);
                assert(spec_nv12_chroma_ok(
                    out@, input@, width as int, height as int, row as int, col as int,
                ));
                assert forall|q: int| 0 <= q < pixel_count implies #[trigger] spec_nv12_luma_ok(
                    out@, input@, q,
                ) by {
                    assert(spec_nv12_luma_ok(out0, input@, q));
                    assert(out@[q] == out0[q]);
                }
                assert forall|r2: int, c2: int|
                    0 <= r2 < row && 0 <= c2 < half_w
                        implies #[trigger] spec_nv12_chroma_ok(
                        out@, input@, width as int, height as int, r2, c2,
                    ) by {
                    assert((r2 * (half_w as int) + c2) * 2 + 2 <= ((row as int) * (half_w as int)
                        + (col as int)) * 2) by (nonlinear_arith)
                        requires
                            0 <= r2 < row as int,
                            0 <= c2 < half_w as int,
                            0 <= col as int,
                    ;
                    assert(spec_nv12_chroma_ok(out0, input@, width as int, height as int, r2, c2));
                }
                assert forall|c2: int|
                    0 <= c2 < col + 1
                        implies #[trigger] spec_nv12_chroma_ok(
                        out@, input@, width as int, height as int, row as int, c2,
                    ) by {
                    if c2 < col {
                        assert(spec_nv12_chroma_ok(
                            out0, input@, width as int, height as int, row as int, c2,
                        ));
                    }
                }
            }
            col = col + 1;
        }
        proof {
            assert((row + 1) * half_w == row * half_w + half_w) by (nonlinear_arith);
        }
        row = row + 1;
    }
    proof {
        assert(half_h * half_w * 2 == half_w * half_h * 2) by (nonlinear_arith);
    }
    Ok(out)
}

/// The conversion pairs the library computes itself, without the media
/// library's general converter.
pub open spec fn spec_direct_pair(src: FrameFormat, dst: FrameFormat) -> bool {
    ||| src == dst
    ||| (src == FrameFormat::Bgra && dst == FrameFormat::Rgba)
    ||| (src == FrameFormat::Rgba && dst == FrameFormat::Bgra)
    ||| (src == FrameFormat::Bgra && dst == FrameFormat::Nv12)
    ||| (src == FrameFormat::Rgba && dst == FrameFormat::Nv12)
    ||| (src == FrameFormat::Bgra && dst == FrameFormat::P010)
    ||| (src == FrameFormat::Rgba && dst == FrameFormat::P010)
    ||| (src == FrameFormat::Nv12 && dst == FrameFormat::P010)
}

/// Convert a frame buffer between pixel formats.
///
/// Identical formats copy through unchanged; BGRA/RGBA swap channels;
/// BGRA, RGBA and NV12 promote to P010. The P010 promotions fail when
/// the buffer is short for the geometry, or when the geometry is odd
/// (4:2:0 chroma needs even sides). Any other pair reports a conversion
/// error: it needs the media library's general converter, which runs in
/// the host program.
pub fn convert_colorspace(
    input: &[u8],
    src_format: FrameFormat,
    dst_format: FrameFormat,
    width: u32,
    height: u32,
) -> (r: Result<Vec<u8>, Error>)
    requires
        width as int * height as int <= usize::MAX / 8,
    ensures
        src_format == dst_format ==> (r matches Ok(out) && out@ == input@),
        (src_format == FrameFormat::Bgra && dst_format == FrameFormat::Rgba)
            || (src_format == FrameFormat::Rgba && dst_format == FrameFormat::Bgra)
            ==> (r matches Ok(out) && out@ == spec_swap_rb(input@)),
        !spec_direct_pair(src_format, dst_format) ==> (r matches Err(e) && e is ColorspaceConversion),
        r is Err ==> r->Err_0 is ColorspaceConversion,
        (src_format == FrameFormat::Bgra || src_format == FrameFormat::Rgba) && (dst_format
            == FrameFormat::Nv12 || dst_format == FrameFormat::P010) ==> ((r is Ok) <==> (width % 2
            == 0 && height % 2 == 0 && input@.len() >= width as int * height as int * 4)),
        src_format == FrameFormat::Nv12 && dst_format == FrameFormat::P010 ==> ((r is Ok) <==> input@.len()
            >= width as int * height as int + (width as int / 2) * (height as int / 2) * 2),
        src_format == FrameFormat::Bgra && dst_format == FrameFormat::Nv12
            ==> (r matches Ok(out) ==> {
            &&& out@.len() == width as int * height as int + (width as int / 2) * (height as int
                / 2) * 2
            &&& forall|p: int| 0 <= p < width as int * height as int
                ==> #[trigger] spec_nv12_luma_ok(out@, input@, p)
            &&& forall|r2: int, c2: int|
                0 <= r2 < height as int / 2 && 0 <= c2 < width as int / 2
                    ==> #[trigger] spec_nv12_chroma_ok(
                    out@, input@, width as int, height as int, r2, c2,
                )
        }),
        src_format == FrameFormat::Rgba && dst_format == FrameFormat::Nv12
            ==> (r matches Ok(out) ==> {
            &&& out@.len() == width as int * height as int + (width as int / 2) * (height as int
                / 2) * 2
            &&& forall|p: int| 0 <= p < width as int * height as int
                ==> #[trigger] spec_nv12_luma_ok(out@, spec_swap_rb(input@), p)
            &&& forall|r2: int, c2: int|
                0 <= r2 < height as int / 2 && 0 <= c2 < width as int / 2
                    ==> #[trigger] spec_nv12_chroma_ok(
                    out@, spec_swap_rb(input@), width as int, height as int, r2, c2,
                )
        }),
        src_format == FrameFormat::Nv12 && dst_format == FrameFormat::P010 ==> (r matches Ok(out) ==> {
            &&& out@.len() == 2 * (width as int * height as int)
                + 2 * ((width as int / 2) * (height as int / 2) * 2)
            &&& forall|i: int|
                0 <= i < width as int * height as int + (width as int / 2) * (height as int / 2) * 2
                    ==> #[trigger] hdr::spec_p010_pair_ok(out@, input@, i)
        }),
        src_format == FrameFormat::Bgra && dst_format == FrameFormat::P010
            ==> (r matches Ok(out) ==> forall|p: int| 0 <= p < width as int * height as int
                ==> #[trigger] hdr::spec_luma_ok(out@, input@, p)),
        src_format == FrameFormat::Rgba && dst_format == FrameFormat::P010
            ==> (r matches Ok(out) ==> forall|p: int| 0 <= p < width as int * height as int
                ==> #[trigger] hdr::spec_luma_ok(out@, spec_swap_rb(input@), p)),
{
    if matches!(src_format, FrameFormat::Nv12) && matches!(dst_format, FrameFormat::Nv12)
        || matches!(src_format, FrameFormat::Yuv420p) && matches!(dst_format, FrameFormat::Yuv420p)
        || matches!(src_format, FrameFormat::Yuv444p) && matches!(dst_format, FrameFormat::Yuv444p)
        || matches!(src_format, FrameFormat::Bgra) && matches!(dst_format, FrameFormat::Bgra)
        || matches!(src_format, FrameFormat::Rgba) && matches!(dst_format, FrameFormat::Rgba)
        || matches!(src_format, FrameFormat::Rgb24) && matches!(dst_format, FrameFormat::Rgb24)
        || matches!(src_format, FrameFormat::P010) && matches!(dst_format, FrameFormat::P010)
    {
        let mut out: Vec<u8> = Vec::new();
        let mut i: usize = 0;
        let len: usize = input.len();
        while i < len
            invariant
                0 <= i <= len,
                len == input@.len(),
                out@.len() == i,
                forall|j: int| 0 <= j < i ==> #[trigger] out@[j] == input@[j],
            decreases len - i,
        {
            out.push(input[i]);
            i = i + 1;
        }
        proof {
            assert(out@ =~= input@);
        }
        return Ok(out);
    }

    match (src_format, dst_format) {
        (FrameFormat::Bgra, FrameFormat::Rgba) => bgra_rgba_swap(input),
        (FrameFormat::Rgba, FrameFormat::Bgra) => bgra_rgba_swap(input),
        (FrameFormat::Bgra, FrameFormat::Nv12) => {
            if width % 2 == 0 && height % 2 == 0 {
                bgra_to_nv12(input, width as usize, height as usize)
            } else {
                Err(Error::ColorspaceConversion(String::from_str("geometry must be even")))
            }
        },
        (FrameFormat::Rgba, FrameFormat::Nv12) => {
            if width % 2 == 0 && height % 2 == 0 {
                let swapped: Vec<u8> = match bgra_rgba_swap(input) {
                    Ok(v) => v,
                    Err(e) => {
                        return Err(Error::ColorspaceConversion(String::from_str(
                            "channel swap failed",
                        )));
                    },
                };
                bgra_to_nv12(swapped.as_slice(), width as usize, height as usize)
            } else {
                Err(Error::ColorspaceConversion(String::from_str("geometry must be even")))
            }
        },
        (FrameFormat::Bgra, FrameFormat::P010) => {
            if width % 2 == 0 && height % 2 == 0 {
                hdr::bgra_to_p010(input, width as usize, height as usize)
            } else {
                Err(Error::ColorspaceConversion(String::from_str("no direct conversion for this format pair")))
            }
        },
        (FrameFormat::Rgba, FrameFormat::P010) => {
            if width % 2 == 0 && height % 2 == 0 {
                let swapped: Vec<u8> = match bgra_rgba_swap(input) {
                    Ok(v) => v,
                    Err(e) => {
                        return Err(Error::ColorspaceConversion(String::from_str("no direct conversion for this format pair")));
                    },
                };
                hdr::bgra_to_p010(swapped.as_slice(), width as usize, height as usize)
            } else {
                Err(Error::ColorspaceConversion(String::from_str("no direct conversion for this format pair")))
            }
        },
        (FrameFormat::Nv12, FrameFormat::P010) => {
            hdr::nv12_to_p010(input, width as usize, height as usize)
        },
        _ => Err(Error::ColorspaceConversion(String::from_str("no direct conversion for this format pair"))),
    }
}

/// Pixel-format converter with value semantics; a thin face over
/// [`convert_colorspace`].
pub struct ColorspaceConverter {
}

impl ColorspaceConverter {
    pub fn new() -> (r: ColorspaceConverter) {
        ColorspaceConverter {  }
    }

    /// Convert a frame buffer; see [`convert_colorspace`].
    pub fn convert(
        &self,
        input: &[u8],
        src_format: FrameFormat,
        dst_format: FrameFormat,
        width: u32,
        height: u32,
    ) -> (r: Result<Vec<u8>, Error>)
        requires
            width as int * height as int <= usize::MAX / 8,
        ensures
            src_format == dst_format ==> (r matches Ok(out) && out@ == input@),
            !spec_direct_pair(src_format, dst_format) ==> (r matches Err(e) && e is ColorspaceConversion),
    {
        convert_colorspace(input, src_format, dst_format, width, height)
    }
}

impl Default for ColorspaceConverter {
    fn default() -> (r: ColorspaceConverter) {
        ColorspaceConverter {  }
    }
}

} // verus!
