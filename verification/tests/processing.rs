//! Tests for the pixel transforms: conversion, scaling, and the
//! 8-bit to 10-bit promotions.

use ghoststream::error::Error;
use ghoststream::processing::convert::{bgra_rgba_swap, bgra_to_nv12, convert_colorspace, ColorspaceConverter};
use ghoststream::processing::hdr::{bgra_to_p010, nv12_to_p010, ContentLightLevel, HdrConfig};
use ghoststream::processing::scale::{scale_frame, scale_nv12, ScaleAlgorithm, Scaler};
use ghoststream::processing::{process_frame, ColorMatrix, ColorPrimaries, TransferFunction};
use ghoststream::types::{Frame, FrameFormat, Resolution};

#[test]
fn identity_conversion_returns_the_input() {
    let data: Vec<u8> = (0..64u8).collect();
    for fmt in [
        FrameFormat::Nv12,
        FrameFormat::Yuv420p,
        FrameFormat::Bgra,
        FrameFormat::Rgba,
        FrameFormat::Rgb24,
        FrameFormat::P010,
    ] {
        let out = convert_colorspace(&data, fmt, fmt, 4, 4).unwrap();
        assert_eq!(out, data);
    }
}

#[test]
fn red_blue_swap_exchanges_the_channels() {
    let input = vec![1u8, 2, 3, 4, 5, 6, 7, 8];
    let swapped = bgra_rgba_swap(&input).unwrap();
    assert_eq!(swapped, vec![3, 2, 1, 4, 7, 6, 5, 8]);
    // A trailing partial pixel passes through unchanged.
    let ragged = vec![1u8, 2, 3, 4, 9, 9];
    let out = bgra_rgba_swap(&ragged).unwrap();
    assert_eq!(out, vec![3, 2, 1, 4, 9, 9]);
}

#[test]
fn red_blue_swap_twice_is_the_identity() {
    let input: Vec<u8> = (0..33u8).collect();
    let once = bgra_rgba_swap(&input).unwrap();
    let twice = bgra_rgba_swap(&once).unwrap();
    assert_eq!(twice, input);
}

#[test]
fn bgra_rgba_paths_go_through_the_swap() {
    let input = vec![10u8, 20, 30, 40];
    let to_rgba = convert_colorspace(&input, FrameFormat::Bgra, FrameFormat::Rgba, 1, 1).unwrap();
    assert_eq!(to_rgba, vec![30, 20, 10, 40]);
    let back = convert_colorspace(&to_rgba, FrameFormat::Rgba, FrameFormat::Bgra, 1, 1).unwrap();
    assert_eq!(back, input);
}

#[test]
fn unsupported_pairs_report_a_conversion_error() {
    let input = vec![0u8; 48];
    let r = convert_colorspace(&input, FrameFormat::Yuv444p, FrameFormat::Nv12, 4, 4);
    assert!(matches!(r, Err(Error::ColorspaceConversion(_))));
    let c = ColorspaceConverter::new();
    let r2 = c.convert(&input, FrameFormat::Rgb24, FrameFormat::Yuv420p, 4, 4);
    assert!(matches!(r2, Err(Error::ColorspaceConversion(_))));
}

#[test]
fn nv12_promotion_shifts_every_sample_into_the_high_bits() {
    // 2x2 NV12: four luma bytes and one interleaved UV pair.
    let input = vec![1u8, 2, 3, 4, 128, 255];
    let out = nv12_to_p010(&input, 2, 2).unwrap();
    assert_eq!(out.len(), 12);
    assert_eq!(&out[0..2], &[64, 0]); // 1 << 6
    assert_eq!(&out[2..4], &[128, 0]); // 2 << 6
    assert_eq!(&out[4..6], &[192, 0]); // 3 << 6
    assert_eq!(&out[6..8], &[0, 1]); // 4 << 6
    assert_eq!(&out[8..10], &[0, 32]); // 128 << 6
    assert_eq!(&out[10..12], &[192, 63]); // 255 << 6
}

#[test]
fn nv12_promotion_rejects_short_buffers() {
    let r = nv12_to_p010(&[0u8; 5], 2, 2);
    assert!(matches!(r, Err(Error::ColorspaceConversion(_))));
}

#[test]
fn bgra_promotion_computes_bt2020_luma_and_chroma() {
    // A uniform white 2x2 block: full luma, neutral chroma.
    let input = vec![255u8; 16];
    let out = bgra_to_p010(&input, 2, 2).unwrap();
    assert_eq!(out.len(), 12);
    for p in 0..4 {
        assert_eq!(&out[2 * p..2 * p + 2], &[192, 63]); // 255 << 6
    }
    // U and V sit at the neutral 128.
    assert_eq!(&out[8..10], &[0, 32]);
    assert_eq!(&out[10..12], &[0, 32]);
    // A black block: zero luma, neutral chroma.
    let black = vec![0u8; 16];
    let out_black = bgra_to_p010(&black, 2, 2).unwrap();
    assert_eq!(&out_black[0..2], &[0, 0]);
    assert_eq!(&out_black[8..10], &[0, 32]);
}

#[test]
fn bgra_to_nv12_computes_bt601_luma_and_chroma() {
    // A uniform white 2x2 block: full luma, neutral chroma.
    let white = vec![255u8; 16];
    let out = bgra_to_nv12(&white, 2, 2).unwrap();
    assert_eq!(out.len(), 6);
    assert_eq!(&out[0..4], &[255, 255, 255, 255]);
    assert_eq!(&out[4..6], &[128, 128]);
    // A black block: zero luma, neutral chroma.
    let black = vec![0u8; 16];
    let out_black = bgra_to_nv12(&black, 2, 2).unwrap();
    assert_eq!(&out_black[0..4], &[0, 0, 0, 0]);
    assert_eq!(&out_black[4..6], &[128, 128]);
    // A short buffer is rejected.
    assert!(matches!(
        bgra_to_nv12(&[0u8; 8], 2, 2),
        Err(Error::ColorspaceConversion(_))
    ));
}

#[test]
fn packed_to_nv12_conversions_run_through_the_converter() {
    let white = vec![255u8; 16];
    let from_bgra = convert_colorspace(&white, FrameFormat::Bgra, FrameFormat::Nv12, 2, 2).unwrap();
    assert_eq!(from_bgra.len(), 6);
    assert_eq!(&from_bgra[0..4], &[255, 255, 255, 255]);
    let from_rgba = convert_colorspace(&white, FrameFormat::Rgba, FrameFormat::Nv12, 2, 2).unwrap();
    assert_eq!(from_rgba, from_bgra);
    // Odd geometry cannot carry 4:2:0 chroma.
    assert!(matches!(
        convert_colorspace(&vec![0u8; 36], FrameFormat::Bgra, FrameFormat::Nv12, 3, 3),
        Err(Error::ColorspaceConversion(_))
    ));
}

#[test]
fn same_size_scaling_is_the_identity() {
    let input: Vec<u8> = (0..16u8).collect();
    assert_eq!(scale_frame(&input, 2, 2, 2, 2).unwrap(), input);
    assert_eq!(scale_nv12(&input, 2, 2, 2, 2).unwrap(), input);
    let s = Scaler::new(ScaleAlgorithm::Lanczos);
    assert_eq!(s.scale(&input, 2, 2, 2, 2).unwrap(), input);
}

#[test]
fn nearest_resampling_replicates_proportional_pixels() {
    // One red-ish pixel doubled to 2x2: every target pixel reads it.
    let one = vec![9u8, 8, 7, 6];
    let up = scale_frame(&one, 1, 1, 2, 2).unwrap();
    assert_eq!(up, vec![9, 8, 7, 6, 9, 8, 7, 6, 9, 8, 7, 6, 9, 8, 7, 6]);

    // A 4x4 raster halved: the target reads columns 0 and 2 of rows 0 and 2.
    let mut grid = Vec::new();
    for y in 0..4u8 {
        for x in 0..4u8 {
            grid.extend_from_slice(&[y * 16 + x, 0, 0, 255]);
        }
    }
    let down = scale_frame(&grid, 4, 4, 2, 2).unwrap();
    assert_eq!(down.len(), 16);
    assert_eq!(down[0], 0x00); // (0, 0)
    assert_eq!(down[4], 0x02); // (2, 0)
    assert_eq!(down[8], 0x20); // (0, 2)
    assert_eq!(down[12], 0x22); // (2, 2)
}

#[test]
fn resampling_rejects_bad_requests() {
    let input = vec![0u8; 16];
    // A buffer shorter than the packed source raster.
    assert!(matches!(scale_frame(&input, 4, 4, 2, 2), Err(Error::Scaling(_))));
    // A zero dimension.
    assert!(matches!(scale_frame(&input, 2, 2, 0, 4), Err(Error::Scaling(_))));
    // NV12 needs even geometry.
    assert!(matches!(scale_nv12(&input, 2, 2, 3, 4), Err(Error::Scaling(_))));
}

#[test]
fn nv12_resampling_serves_both_planes() {
    // A 2x2 NV12 frame upsampled to 4x4: luma replicates, the single
    // chroma pair fills the half-resolution plane.
    let input = vec![1u8, 2, 3, 4, 100, 200];
    let up = scale_nv12(&input, 2, 2, 4, 4).unwrap();
    assert_eq!(up.len(), 16 + 8);
    assert_eq!(&up[0..4], &[1, 1, 2, 2]);
    assert_eq!(&up[4..8], &[1, 1, 2, 2]);
    assert_eq!(&up[8..12], &[3, 3, 4, 4]);
    assert_eq!(&up[16..20], &[100, 200, 100, 200]);
}

#[test]
fn process_frame_preserves_stamps_and_strips_zero_copy() {
    let mut frame = Frame::new(2, 2, FrameFormat::Bgra);
    frame.pts = 777;
    frame.duration = 16_667;
    frame.is_keyframe = true;
    let out = process_frame(&frame, None, Some(FrameFormat::Rgba)).unwrap();
    assert_eq!(out.pts, 777);
    assert_eq!(out.duration, 16_667);
    assert!(out.is_keyframe);
    assert_eq!(out.format, FrameFormat::Rgba);
    assert_eq!(out.dmabuf_fd, None);
}

#[test]
fn process_frame_passes_through_without_targets() {
    let frame = Frame::from_data(vec![5u8; 16], 2, 2, 8, FrameFormat::Bgra);
    let out = process_frame(&frame, Some(Resolution::new(2, 2)), None).unwrap();
    assert_eq!(out.data, frame.data);
    assert_eq!(out.format, FrameFormat::Bgra);
}

#[test]
fn process_frame_resizes_to_the_target_geometry() {
    let mut frame = Frame::new(4, 4, FrameFormat::Bgra);
    frame.pts = 42;
    let out = process_frame(&frame, Some(Resolution::new(2, 2)), None).unwrap();
    assert_eq!((out.width, out.height), (2, 2));
    assert_eq!(out.stride, 8);
    assert_eq!(out.data.len(), 16);
    assert_eq!(out.pts, 42);
    // A planar frame is shorter than the packed raster the resize reads.
    let planar = Frame::new(4, 4, FrameFormat::Nv12);
    let r = process_frame(&planar, Some(Resolution::new(2, 2)), None);
    assert!(matches!(r, Err(Error::Scaling(_))));
}

#[test]
fn process_frame_resizes_then_converts() {
    let frame = Frame::new(4, 4, FrameFormat::Bgra);
    let out = process_frame(
        &frame,
        Some(Resolution::new(2, 2)),
        Some(FrameFormat::Nv12),
    )
    .unwrap();
    assert_eq!((out.width, out.height), (2, 2));
    assert_eq!(out.format, FrameFormat::Nv12);
    assert_eq!(out.data.len(), 4 + 2);
}

#[test]
fn hdr_configurations_carry_their_colorimetry() {
    let sdr = HdrConfig::sdr();
    assert!(!sdr.is_hdr());
    assert_eq!(sdr.pixel_format(), FrameFormat::Nv12);
    assert_eq!(sdr.transfer.ffmpeg_trc(), 1);

    let hdr10 = HdrConfig::hdr10();
    assert!(hdr10.is_hdr());
    assert_eq!(hdr10.pixel_format(), FrameFormat::P010);
    assert_eq!(hdr10.transfer, TransferFunction::Pq);
    assert_eq!(hdr10.transfer.ffmpeg_trc(), 16);
    assert_eq!(hdr10.primaries, ColorPrimaries::Bt2020);
    assert_eq!(hdr10.primaries.ffmpeg_primaries(), 9);
    assert_eq!(hdr10.matrix, ColorMatrix::Bt2020Ncl);
    assert_eq!(hdr10.matrix.ffmpeg_colorspace(), 9);
    assert_eq!(hdr10.content_light, Some(ContentLightLevel::new(1000, 400)));

    let hlg = HdrConfig::hlg();
    assert_eq!(hlg.transfer.ffmpeg_trc(), 18);
    assert_eq!(hlg.pixel_format(), FrameFormat::P010);
}
