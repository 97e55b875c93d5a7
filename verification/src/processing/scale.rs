//! Frame scaling.
//!
//! The library resamples frames itself by nearest-neighbour sampling:
//! every target pixel takes the source pixel at the proportional
//! position. The interpolating algorithms — bilinear, bicubic,
//! Lanczos — are refinements the media library's scaler computes; a
//! host that links one substitutes it, and this resampler serves the
//! request at the correct geometry either way.

use vstd::prelude::*;
use vstd::string::StringExecFns;
use crate::error::Error;

verus! {

/// Interpolation used when resizing.
#[derive(Debug, Clone, Copy, PartialEq, Eq, Structural)]
pub enum ScaleAlgorithm {
    /// Nearest neighbour: fastest, blocky.
    Nearest,
    /// Bilinear: fast and smooth, the default.
    Bilinear,
    /// Bicubic: balanced.
    Bicubic,
    /// Lanczos: best quality, slowest.
    Lanczos,
}

impl Default for ScaleAlgorithm {
    fn default() -> (r: ScaleAlgorithm)
        ensures
            r == ScaleAlgorithm::Bilinear,
    {
        ScaleAlgorithm::Bilinear
    }
}

/// The source coordinate that nearest-neighbour sampling reads for a
/// target coordinate: the proportional position, rounded down.
pub open spec fn spec_nearest_coord(d: int, dst_len: int, src_len: int) -> int {
    d * src_len / dst_len
}

/// The four bytes of target pixel `(x, y)` equal the source pixel at
/// the proportional position.
pub open spec fn spec_resampled_pixel_ok(
    out: Seq<u8>,
    input: Seq<u8>,
    src_width: int,
    src_height: int,
    dst_width: int,
    dst_height: int,
    x: int,
    y: int,
) -> bool {
    let sx = spec_nearest_coord(x, dst_width, src_width);
    let sy = spec_nearest_coord(y, dst_height, src_height);
    forall|c: int|
        0 <= c < 4 ==> #[trigger] out[4 * (y * dst_width + x) + c] == input[4 * (sy * src_width
            + sx) + c]
}

/// Whether a packed 4-byte-per-pixel buffer can be resampled from the
/// source to the target geometry: every dimension is positive and the
/// buffer holds the source raster.
pub open spec fn spec_can_resample(
    input_len: int,
    src_width: int,
    src_height: int,
    dst_width: int,
    dst_height: int,
) -> bool {
    &&& src_width >= 1
    &&& src_height >= 1
    &&& dst_width >= 1
    &&& dst_height >= 1
    &&& input_len >= src_width * src_height * 4
}

/// The proportional source coordinate for a target coordinate, with
/// the bounds sampling needs.
fn nearest_coord(d: u32, dst_len: u32, src_len: u32) -> (r: usize)
    requires
        d < dst_len,
        src_len >= 1,
    ensures
        r as int == spec_nearest_coord(d as int, dst_len as int, src_len as int),
        r < src_len,
{
    let d64: u64 = d as u64;
    let src64: u64 = src_len as u64;
    let dst64: u64 = dst_len as u64;
    proof {
        assert((d64 as int) * (src64 as int) <= 0xFFFF_FFFFint * 0xFFFF_FFFFint && (d64 as int) * (
        src64 as int) / (dst64 as int) < src64 as int) by (nonlinear_arith)
            requires
                0 <= d64 as int,
                (d64 as int) < (dst64 as int),
                (dst64 as int) <= 0xFFFF_FFFFint,
                1 <= (src64 as int),
                (src64 as int) <= 0xFFFF_FFFFint,
        ;
    }
    ((d64 * src64) / dst64) as usize
}

/// Resample a packed 4-byte-per-pixel buffer to a new geometry by
/// nearest-neighbour sampling.
fn resample_packed(
    input: &[u8],
    src_width: u32,
    src_height: u32,
    dst_width: u32,
    dst_height: u32,
) -> (r: Vec<u8>)
    requires
        src_width >= 1,
        src_height >= 1,
        dst_width >= 1,
        dst_height >= 1,
        input@.len() >= src_width as int * src_height as int * 4,
        dst_width as int * dst_height as int * 4 <= usize::MAX,
        src_width as int * src_height as int * 4 <= usize::MAX,
    ensures
        r@.len() == dst_width as int * dst_height as int * 4,
        forall|x: int, y: int|
            0 <= x < dst_width as int && 0 <= y < dst_height as int
                ==> #[trigger] spec_resampled_pixel_ok(
                r@,
                input@,
                src_width as int,
                src_height as int,
                dst_width as int,
                dst_height as int,
                x,
                y,
            ),
{
    let mut out: Vec<u8> = Vec::new();
    let mut y: u32 = 0;
    while y < dst_height
        invariant
            0 <= y <= dst_height,
            src_width >= 1 && src_height >= 1 && dst_width >= 1 && dst_height >= 1,
            input@.len() >= src_width as int * src_height as int * 4,
            src_width as int * src_height as int * 4 <= usize::MAX,
            dst_width as int * dst_height as int * 4 <= usize::MAX,
            out@.len() == y as int * dst_width as int * 4,
            forall|x2: int, y2: int|
                0 <= x2 < dst_width as int && 0 <= y2 < y as int
                    ==> #[trigger] spec_resampled_pixel_ok(
                    out@,
                    input@,
                    src_width as int,
                    src_height as int,
                    dst_width as int,
                    dst_height as int,
                    x2,
                    y2,
                ),
        decreases dst_height as int - y,
    {
        let sy: usize = nearest_coord(y, dst_height, src_height);
        let mut x: u32 = 0;
        while x < dst_width
            invariant
                0 <= x <= dst_width,
                0 <= y < dst_height,
                sy as int == spec_nearest_coord(y as int, dst_height as int, src_height as int),
                sy < src_height,
                src_width >= 1 && src_height >= 1 && dst_width >= 1 && dst_height >= 1,
                input@.len() >= src_width as int * src_height as int * 4,
                src_width as int * src_height as int * 4 <= usize::MAX,
                dst_width as int * dst_height as int * 4 <= usize::MAX,
                out@.len() == y as int * dst_width as int * 4 + x as int * 4,
                forall|x2: int, y2: int|
                    0 <= x2 < dst_width as int && 0 <= y2 < y as int
                        ==> #[trigger] spec_resampled_pixel_ok(
                        out@,
                        input@,
                        src_width as int,
                        src_height as int,
                        dst_width as int,
                        dst_height as int,
                        x2,
                        y2,
                    ),
                forall|x2: int|
                    0 <= x2 < x as int ==> #[trigger] spec_resampled_pixel_ok(
                        out@,
                        input@,
                        src_width as int,
                        src_height as int,
                        dst_width as int,
                        dst_height as int,
                        x2,
                        y as int,
                    ),
            decreases dst_width as int - x,
        {
            let sx: usize = nearest_coord(x, dst_width, src_width);
            proof {
                assert(4 * ((sy as int) * (src_width as int) + (sx as int)) + 4 <= 4 * ((src_width
                    as int) * (src_height as int))) by (nonlinear_arith)
                    requires
                        0 <= sy as int,
                        (sy as int) < (src_height as int),
                        0 <= sx as int,
                        (sx as int) < (src_width as int),
                        (src_width as int) >= 1,
                ;
                assert(((y as int) * (dst_width as int) + (x as int)) * 4 + 4 <= (dst_width as int)
                    * (dst_height as int) * 4) by (nonlinear_arith)
                    requires
                        0 <= x as int,
                        (x as int) < (dst_width as int),
                        0 <= y as int,
                        (y as int) < (dst_height as int),
                ;
            }
            let src_base: usize = 4 * (sy * (src_width as usize) + sx);
            let ghost out0: Seq<u8> = out@;
            out.push(input[src_base]);
            out.push(input[src_base + 1]);
            out.push(input[src_base + 2]);
            out.push(input[src_base + 3]);
            proof {
                assert(out@.len() == out0.len() + 4);
                assert(forall|k: int| 0 <= k < out0.len() ==> #[trigger] out@[k] == out0[k]);
                assert(spec_resampled_pixel_ok(
                    out@,
                    input@,
                    src_width as int,
                    src_height as int,
                    dst_width as int,
                    dst_height as int,
                    x as int,
                    y as int,
                ));
                assert forall|x2: int, y2: int|
                    0 <= x2 < dst_width as int && 0 <= y2 < y as int
                        implies #[trigger] spec_resampled_pixel_ok(
                        out@,
                        input@,
                        src_width as int,
                        src_height as int,
                        dst_width as int,
                        dst_height as int,
                        x2,
                        y2,
                    ) by {
                    assert(spec_resampled_pixel_ok(
                        out0,
                        input@,
                        src_width as int,
                        src_height as int,
                        dst_width as int,
                        dst_height as int,
                        x2,
                        y2,
                    ));
                    assert((y2 * (dst_width as int) + x2) * 4 + 4 <= ((y as int) * (dst_width
                        as int) + (x as int)) * 4) by (nonlinear_arith)
                        requires
                            0 <= x2,
                            x2 < (dst_width as int),
                            0 <= y2,
                            y2 < (y as int),
                            0 <= x as int,
                            0 <= y as int,
                    ;
                }
                assert forall|x2: int|
                    0 <= x2 < x as int + 1 implies #[trigger] spec_resampled_pixel_ok(
                        out@,
                        input@,
                        src_width as int,
                        src_height as int,
                        dst_width as int,
                        dst_height as int,
                        x2,
                        y as int,
                    ) by {
                    if x2 < x as int {
                        assert(spec_resampled_pixel_ok(
                            out0,
                            input@,
                            src_width as int,
                            src_height as int,
                            dst_width as int,
                            dst_height as int,
                            x2,
                            y as int,
                        ));
                        assert(((y as int) * (dst_width as int) + x2) * 4 + 4 <= ((y as int) * (
                        dst_width as int) + (x as int)) * 4) by (nonlinear_arith)
                            requires
                                0 <= x2,
                                x2 < (x as int),
                                0 <= y as int,
                        ;
                    }
                }
            }
            x = x + 1;
        }
        proof {
            assert((y as int + 1) * (dst_width as int) * 4 == (y as int) * (dst_width as int) * 4
                + (dst_width as int) * 4) by (nonlinear_arith);
        }
        y = y + 1;
    }
    proof {
        assert(out@.len() == (dst_height as int) * (dst_width as int) * 4);
        assert((dst_height as int) * (dst_width as int) == (dst_width as int) * (dst_height
            as int)) by (nonlinear_arith);
    }
    out
}

/// Scale a packed 4-byte-per-pixel buffer from one geometry to another.
///
/// Equal geometries copy the buffer through unchanged. Other requests
/// are served by the library's nearest-neighbour resampler at the
/// target geometry; a zero dimension or a buffer shorter than the
/// source raster is rejected.
pub fn scale_frame_with_algorithm(
    input: &[u8],
    src_width: u32,
    src_height: u32,
    dst_width: u32,
    dst_height: u32,
    algorithm: ScaleAlgorithm,
) -> (r: Result<Vec<u8>, Error>)
    requires
        src_width as int * src_height as int * 4 <= usize::MAX,
        dst_width as int * dst_height as int * 4 <= usize::MAX,
    ensures
        src_width == dst_width && src_height == dst_height ==> (r matches Ok(out) && out@
            == input@),
        !(src_width == dst_width && src_height == dst_height) && !spec_can_resample(
            input@.len() as int,
            src_width as int,
            src_height as int,
            dst_width as int,
            dst_height as int,
        ) ==> (r matches Err(e) && e is Scaling),
        !(src_width == dst_width && src_height == dst_height) && spec_can_resample(
            input@.len() as int,
            src_width as int,
            src_height as int,
            dst_width as int,
            dst_height as int,
        ) ==> (r matches Ok(out) && out@.len() == dst_width as int * dst_height as int * 4
            && forall|x: int, y: int|
            0 <= x < dst_width as int && 0 <= y < dst_height as int
                ==> #[trigger] spec_resampled_pixel_ok(
                out@,
                input@,
                src_width as int,
                src_height as int,
                dst_width as int,
                dst_height as int,
                x,
                y,
            )),
{
    if src_width == dst_width && src_height == dst_height {
        let mut out: Vec<u8> = Vec::new();
        let mut i: usize = 0;
        let len: usize = input.len();
        while i < len
            invariant
                0 <= i <= len,
                len == input@.len(),
                out@.len() == i,
                forall|j: int| 0 <= j < i ==> #[trigger] out@[j] == input@[j],
            decreases len - i,
        {
            out.push(input[i]);
            i = i + 1;
        }
        proof {
            assert(out@ =~= input@);
        }
        return Ok(out);
    }
    if src_width == 0 || src_height == 0 || dst_width == 0 || dst_height == 0 {
        return Err(Error::Scaling(String::from_str("a dimension is zero")));
    }
    proof {
        assert((src_width as int) * (src_height as int) * 4 >= 0) by (nonlinear_arith)
            requires
                src_width as int >= 0,
                src_height as int >= 0,
        ;
    }
    let needed: usize = (src_width as usize) * (src_height as usize) * 4;
    if input.len() < needed {
        return Err(Error::Scaling(String::from_str("input buffer too small")));
    }
    Ok(resample_packed(input, src_width, src_height, dst_width, dst_height))
}

/// Scale a packed 4-byte-per-pixel buffer with the default algorithm;
/// see [`scale_frame_with_algorithm`].
pub fn scale_frame(
    input: &[u8],
    src_width: u32,
    src_height: u32,
    dst_width: u32,
    dst_height: u32,
) -> (r: Result<Vec<u8>, Error>)
    requires
        src_width as int * src_height as int * 4 <= usize::MAX,
        dst_width as int * dst_height as int * 4 <= usize::MAX,
    ensures
        src_width == dst_width && src_height == dst_height ==> (r matches Ok(out) && out@
            == input@),
        !(src_width == dst_width && src_height == dst_height) && !spec_can_resample(
            input@.len() as int,
            src_width as int,
            src_height as int,
            dst_width as int,
            dst_height as int,
        ) ==> (r matches Err(e) && e is Scaling),
        !(src_width == dst_width && src_height == dst_height) && spec_can_resample(
            input@.len() as int,
            src_width as int,
            src_height as int,
            dst_width as int,
            dst_height as int,
        ) ==> (r matches Ok(out) && out@.len() == dst_width as int * dst_height as int * 4
            && forall|x: int, y: int|
            0 <= x < dst_width as int && 0 <= y < dst_height as int
                ==> #[trigger] spec_resampled_pixel_ok(
                out@,
                input@,
                src_width as int,
                src_height as int,
                dst_width as int,
                dst_height as int,
                x,
                y,
            )),
{
    scale_frame_with_algorithm(
        input,
        src_width,
        src_height,
        dst_width,
        dst_height,
        ScaleAlgorithm::Bilinear,
    )
}

/// Whether an NV12 buffer can be resampled between the two geometries:
/// both even and positive on every axis, with the buffer holding the
/// source planes.
pub open spec fn spec_can_resample_nv12(
    input_len: int,
    src_width: int,
    src_height: int,
    dst_width: int,
    dst_height: int,
) -> bool {
    &&& src_width >= 2 && src_width % 2 == 0
    &&& src_height >= 2 && src_height % 2 == 0
    &&& dst_width >= 2 && dst_width % 2 == 0
    &&& dst_height >= 2 && dst_height % 2 == 0
    &&& input_len >= src_width * src_height + (src_width / 2) * (src_height / 2) * 2
}

/// Scale an NV12 buffer between geometries: equal geometries copy
/// through; other requests resample the luma plane and the interleaved
/// chroma plane by nearest-neighbour sampling. Geometries must be even
/// on both axes, as the 4:2:0 chroma demands.
pub fn scale_nv12(
    input: &[u8],
    src_width: u32,
    src_height: u32,
    dst_width: u32,
    dst_height: u32,
) -> (r: Result<Vec<u8>, Error>)
    requires
        src_width as int * src_height as int * 4 <= usize::MAX,
        dst_width as int * dst_height as int * 4 <= usize::MAX,
    ensures
        src_width == dst_width && src_height == dst_height ==> (r matches Ok(out) && out@
            == input@),
        !(src_width == dst_width && src_height == dst_height) && !spec_can_resample_nv12(
            input@.len() as int,
            src_width as int,
            src_height as int,
            dst_width as int,
            dst_height as int,
        ) ==> (r matches Err(e) && e is Scaling),
        !(src_width == dst_width && src_height == dst_height) && spec_can_resample_nv12(
            input@.len() as int,
            src_width as int,
            src_height as int,
            dst_width as int,
            dst_height as int,
        ) ==> (r matches Ok(out) && out@.len() == dst_width as int * dst_height as int + (
        dst_width as int / 2) * (dst_height as int / 2) * 2),
{
    if src_width == dst_width && src_height == dst_height {
        let mut out: Vec<u8> = Vec::new();
        let mut i: usize = 0;
        let len: usize = input.len();
        while i < len
            invariant
                0 <= i <= len,
                len == input@.len(),
                out@.len() == i,
                forall|j: int| 0 <= j < i ==> #[trigger] out@[j] == input@[j],
            decreases len - i,
        {
            out.push(input[i]);
            i = i + 1;
        }
        proof {
            assert(out@ =~= input@);
        }
        return Ok(out);
    }
    if src_width < 2 || src_height < 2 || dst_width < 2 || dst_height < 2 || src_width % 2 != 0
        || src_height % 2 != 0 || dst_width % 2 != 0 || dst_height % 2 != 0 {
        return Err(Error::Scaling(String::from_str("geometry must be even and nonzero")));
    }
    proof {
        assert((src_width as int / 2) * (src_height as int / 2) * 2 <= (src_width as int) * (
        src_height as int) && (src_width as int) * (src_height as int) >= 0) by (nonlinear_arith)
            requires
                src_width as int >= 0,
                src_height as int >= 0,
        ;
        assert((dst_width as int / 2) * (dst_height as int / 2) * 2 <= (dst_width as int) * (
        dst_height as int) && (dst_width as int) * (dst_height as int) >= 0) by (nonlinear_arith)
            requires
                dst_width as int >= 0,
                dst_height as int >= 0,
        ;
    }
    let src_luma: usize = (src_width as usize) * (src_height as usize);
    let src_needed: usize = src_luma + ((src_width / 2) as usize) * ((src_height / 2) as usize)
        * 2;
    if input.len() < src_needed {
        return Err(Error::Scaling(String::from_str("input buffer too small")));
    }

    let dst_luma: usize = (dst_width as usize) * (dst_height as usize);
    let mut out: Vec<u8> = Vec::new();

    // Luma plane: one byte per target pixel from the proportional
    // source pixel.
    let mut y: u32 = 0;
    while y < dst_height
        invariant
            0 <= y <= dst_height,
            2 <= src_width && 2 <= src_height && 2 <= dst_width && 2 <= dst_height,
            src_luma == src_width as int * src_height as int,
            input@.len() >= src_luma,
            dst_width as int * dst_height as int * 4 <= usize::MAX,
            dst_luma == dst_width as int * dst_height as int,
            out@.len() == y as int * dst_width as int,
        decreases dst_height as int - y,
    {
        let sy: usize = nearest_coord(y, dst_height, src_height);
        let mut x: u32 = 0;
        while x < dst_width
            invariant
                0 <= x <= dst_width,
                0 <= y < dst_height,
                sy < src_height,
                2 <= src_width && 2 <= src_height && 2 <= dst_width && 2 <= dst_height,
                src_luma == src_width as int * src_height as int,
                input@.len() >= src_luma,
                dst_width as int * dst_height as int * 4 <= usize::MAX,
                dst_luma == dst_width as int * dst_height as int,
                out@.len() == y as int * dst_width as int + x as int,
            decreases dst_width as int - x,
        {
            let sx: usize = nearest_coord(x, dst_width, src_width);
            proof {
                assert((sy as int) * (src_width as int) + (sx as int) < (src_width as int) * (
                src_height as int)) by (nonlinear_arith)
                    requires
                        0 <= sy as int,
                        (sy as int) < (src_height as int),
                        0 <= sx as int,
                        (sx as int) < (src_width as int),
                        (src_width as int) >= 1,
                ;
                assert((y as int) * (dst_width as int) + (x as int) + 1 <= (dst_width as int) * (
                dst_height as int)) by (nonlinear_arith)
                    requires
                        0 <= x as int,
                        (x as int) < (dst_width as int),
                        0 <= y as int,
                        (y as int) < (dst_height as int),
                ;
            }
            out.push(input[sy * (src_width as usize) + sx]);
            x = x + 1;
        }
        proof {
            assert((y as int + 1) * (dst_width as int) == (y as int) * (dst_width as int) + (
            dst_width as int)) by (nonlinear_arith);
        }
        y = y + 1;
    }
    proof {
        assert((dst_height as int) * (dst_width as int) == (dst_width as int) * (dst_height
            as int)) by (nonlinear_arith);
    }

    // Chroma plane: one interleaved UV pair per 2x2 target block from
    // the proportional source block.
    let src_half_w: u32 = src_width / 2;
    let src_half_h: u32 = src_height / 2;
    let dst_half_w: u32 = dst_width / 2;
    let dst_half_h: u32 = dst_height / 2;
    let mut cy: u32 = 0;
    while cy < dst_half_h
        invariant
            0 <= cy <= dst_half_h,
            1 <= src_half_w && 1 <= src_half_h && 1 <= dst_half_w && 1 <= dst_half_h,
            src_half_w == src_width as int / 2,
            src_half_h == src_height as int / 2,
            dst_half_w == dst_width as int / 2,
            dst_half_h == dst_height as int / 2,
            src_luma == src_width as int * src_height as int,
            dst_luma == dst_width as int * dst_height as int,
            input@.len() >= src_luma + src_half_w as int * src_half_h as int * 2,
            src_luma + src_half_w as int * src_half_h as int * 2 <= usize::MAX,
            dst_width as int * dst_height as int * 4 <= usize::MAX,
            dst_half_w as int * dst_half_h as int * 2 <= dst_luma,
            out@.len() == dst_luma + cy as int * dst_half_w as int * 2,
        decreases dst_half_h as int - cy,
    {
        let scy: usize = nearest_coord(cy, dst_half_h, src_half_h);
        let mut cx: u32 = 0;
        while cx < dst_half_w
            invariant
                0 <= cx <= dst_half_w,
                0 <= cy < dst_half_h,
                scy < src_half_h,
                1 <= src_half_w && 1 <= src_half_h && 1 <= dst_half_w && 1 <= dst_half_h,
                src_luma == src_width as int * src_height as int,
                dst_luma == dst_width as int * dst_height as int,
                input@.len() >= src_luma + src_half_w as int * src_half_h as int * 2,
                src_luma + src_half_w as int * src_half_h as int * 2 <= usize::MAX,
                dst_width as int * dst_height as int * 4 <= usize::MAX,
                dst_half_w as int * dst_half_h as int * 2 <= dst_luma,
                out@.len() == dst_luma + cy as int * dst_half_w as int * 2 + cx as int * 2,
            decreases dst_half_w as int - cx,
        {
            let scx: usize = nearest_coord(cx, dst_half_w, src_half_w);
            proof {
                assert(((scy as int) * (src_half_w as int) + (scx as int)) * 2 + 2 <= (src_half_w
                    as int) * (src_half_h as int) * 2) by (nonlinear_arith)
                    requires
                        0 <= scy as int,
                        (scy as int) < (src_half_h as int),
                        0 <= scx as int,
                        (scx as int) < (src_half_w as int),
                        (src_half_w as int) >= 1,
                ;
                assert(((cy as int) * (dst_half_w as int) + (cx as int)) * 2 + 2 <= (dst_half_w
                    as int) * (dst_half_h as int) * 2) by (nonlinear_arith)
                    requires
                        0 <= cx as int,
                        (cx as int) < (dst_half_w as int),
                        0 <= cy as int,
                        (cy as int) < (dst_half_h as int),
                ;
            }
            let src_base: usize = src_luma + (scy * (src_half_w as usize) + scx) * 2;
            out.push(input[src_base]);
            out.push(input[src_base + 1]);
            cx = cx + 1;
        }
        proof {
            assert((cy as int + 1) * (dst_half_w as int) * 2 == (cy as int) * (dst_half_w as int)
                * 2 + (dst_half_w as int) * 2) by (nonlinear_arith);
        }
        cy = cy + 1;
    }
    proof {
        assert((dst_half_h as int) * (dst_half_w as int) == (dst_half_w as int) * (dst_half_h
            as int)) by (nonlinear_arith);
    }
    Ok(out)
}

/// Frame scaler carrying its interpolation choice.
pub struct Scaler {
    /// Interpolation used for resizes.
    pub algorithm: ScaleAlgorithm,
}

impl Scaler {
    pub fn new(algorithm: ScaleAlgorithm) -> (r: Scaler)
        ensures
            r.algorithm == algorithm,
    {
        Scaler { algorithm }
    }

    /// Scale a packed 4-byte-per-pixel buffer; see
    /// [`scale_frame_with_algorithm`].
    pub fn scale(
        &self,
        input: &[u8],
        src_width: u32,
        src_height: u32,
        dst_width: u32,
        dst_height: u32,
    ) -> (r: Result<Vec<u8>, Error>)
        requires
            src_width as int * src_height as int * 4 <= usize::MAX,
            dst_width as int * dst_height as int * 4 <= usize::MAX,
        ensures
            src_width == dst_width && src_height == dst_height ==> (r matches Ok(out) && out@
                == input@),
            !(src_width == dst_width && src_height == dst_height) && spec_can_resample(
                input@.len() as int,
                src_width as int,
                src_height as int,
                dst_width as int,
                dst_height as int,
            ) ==> (r matches Ok(out) && out@.len() == dst_width as int * dst_height as int * 4),
            !(src_width == dst_width && src_height == dst_height) && !spec_can_resample(
                input@.len() as int,
                src_width as int,
                src_height as int,
                dst_width as int,
                dst_height as int,
            ) ==> (r matches Err(e) && e is Scaling),
    {
        scale_frame_with_algorithm(
            input,
            src_width,
            src_height,
            dst_width,
            dst_height,
            self.algorithm,
        )
    }
}

impl Default for Scaler {
    fn default() -> (r: Scaler)
        ensures
            r.algorithm == ScaleAlgorithm::Bilinear,
    {
        Scaler { algorithm: ScaleAlgorithm::Bilinear }
    }
}

} // verus!
