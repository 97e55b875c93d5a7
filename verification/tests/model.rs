//! Tests for the value types, configuration and text helpers.

use ghoststream::config::{CaptureBackend, CaptureConfig, EncoderConfig, EncoderPreset, EncoderTuning, Preset, RateControl};
use ghoststream::encode::Codec;
use ghoststream::error::Error;
use ghoststream::text;
use ghoststream::types::{CodecParams, Frame, FrameFormat, Framerate, Packet, Resolution, Stats};

#[test]
fn resolution_pixels_counts_the_raster() {
    let r = Resolution::new(1920, 1080);
    assert_eq!(r.pixels(), 2_073_600);
    assert_eq!(Resolution::new(0, 7).pixels(), 0);
    assert_eq!(Resolution::default(), Resolution::new(1920, 1080));
}

#[test]
fn frame_duration_is_floor_of_us_per_frame() {
    assert_eq!(Framerate::new(60, 1).frame_duration_us(), 16_666);
    assert_eq!(Framerate::new(30, 1).frame_duration_us(), 33_333);
    assert_eq!(Framerate::new(30_000, 1001).frame_duration_us(), 33_366);
    assert_eq!(Framerate::new(24, 1).frame_duration_us(), 41_666);
}

#[test]
fn framerate_fps_handles_zero_denominator() {
    assert_eq!(Framerate::new(60, 1).fps(), 60);
    assert_eq!(Framerate::new(120, 2).fps(), 60);
    assert_eq!(Framerate::new(75, 0).fps(), 75);
}

#[test]
fn frame_new_allocates_zeroed_ceiling_of_format_bytes() {
    let f = Frame::new(4, 4, FrameFormat::Nv12);
    assert_eq!(f.size_bytes(), 24);
    assert!(f.data.iter().all(|b| *b == 0));
    assert_eq!(f.stride, 16);
    assert!(!f.is_zero_copy());
    // Odd geometry rounds the half-byte chroma up.
    let odd = Frame::new(3, 3, FrameFormat::Yuv420p);
    assert_eq!(odd.size_bytes(), 14);
    assert_eq!(Frame::new(2, 2, FrameFormat::Bgra).size_bytes(), 16);
    assert_eq!(Frame::new(2, 2, FrameFormat::P010).size_bytes(), 12);
}

#[test]
fn frame_from_data_keeps_the_buffer() {
    let f = Frame::from_data(vec![9u8; 16], 2, 2, 8, FrameFormat::Bgra);
    assert_eq!(f.width, 2);
    assert_eq!(f.height, 2);
    assert_eq!(f.stride, 8);
    assert_eq!(f.resolution(), Resolution::new(2, 2));
    assert_eq!(f.data, vec![9u8; 16]);
}

#[test]
fn packet_carries_stamps_and_size() {
    let p = Packet::new(vec![1, 2, 3], 40, 30, true);
    assert_eq!(p.size(), 3);
    assert_eq!(p.pts, 40);
    assert_eq!(p.dts, 30);
    assert!(p.is_keyframe);
    assert_eq!(p.duration, 0);
    assert_eq!(p.flags, 0);
}

#[test]
fn codec_params_default_is_the_fallback_set() {
    let p = CodecParams::default();
    assert_eq!(p.codec, Codec::H264);
    assert_eq!(p.resolution, Resolution::new(1920, 1080));
    assert_eq!(p.framerate, Framerate::new(60, 1));
    assert_eq!(p.time_base_num, 1);
    assert_eq!(p.time_base_den, 1000);
    assert_eq!(p.bitrate, 6_000_000);
    assert!(p.extradata.is_empty());
}

#[test]
fn stats_default_is_zeroed() {
    let s = Stats::default();
    assert_eq!(s.frames_captured, 0);
    assert_eq!(s.frames_encoded, 0);
    assert_eq!(s.frames_dropped, 0);
    assert_eq!(s.bytes_written, 0);
}

#[test]
fn error_recoverability_follows_the_taxonomy() {
    assert!(Error::EncodingFailed(String::new()).is_recoverable());
    assert!(Error::Streaming(String::new()).is_recoverable());
    assert!(Error::Pipeline(String::new()).is_recoverable());
    assert!(!Error::NoCaptureSource.is_recoverable());
    assert!(!Error::Muxer(String::new()).is_recoverable());
    assert!(Error::NvencNotAvailable(String::new()).is_hardware_issue());
    assert!(Error::CodecNotSupported(String::new()).is_hardware_issue());
    assert!(!Error::Portal(String::new()).is_hardware_issue());
}

#[test]
fn preset_table_matches_the_published_presets() {
    let d = EncoderConfig::from_preset(Preset::Discord720p);
    assert_eq!(d.codec, Codec::H264);
    assert_eq!(d.resolution, Some(Resolution::new(1280, 720)));
    assert_eq!(d.framerate, Framerate::new(30, 1));
    assert_eq!(d.bitrate_kbps, 3000);
    assert_eq!(d.preset, EncoderPreset::Fast);
    assert_eq!(d.tuning, EncoderTuning::LowLatency);
    assert_eq!(d.gop_size, 60);

    let s = EncoderConfig::from_preset(Preset::Stream1080p60);
    assert_eq!(s.codec, Codec::H264);
    assert_eq!(s.bitrate_kbps, 6000);
    assert_eq!(s.gop_size, 120);

    let low = EncoderConfig::from_preset(Preset::LowLatency);
    assert_eq!(low.resolution, None);
    assert_eq!(low.b_frames, 0);
    assert_eq!(low.gop_size, 30);
    assert_eq!(low.tuning, EncoderTuning::UltraLowLatency);

    let rec = EncoderConfig::from_preset(Preset::Recording);
    assert_eq!(rec.codec, Codec::Hevc);
    assert_eq!(rec.bitrate_kbps, 50_000);
    assert_eq!(rec.lookahead, Some(20));
    assert_eq!(rec.b_frames, 3);

    let hdr = EncoderConfig::from_preset(Preset::Hdr10_4K60);
    assert_eq!(hdr.codec, Codec::Hevc);
    assert_eq!(hdr.pixel_format, FrameFormat::P010);
    assert_eq!(hdr.profile.as_deref(), Some("main10"));
    assert!(hdr.hdr.is_some());
}

#[test]
fn encoder_config_builders_compose() {
    let c = EncoderConfig::default()
        .with_codec(Codec::Av1)
        .with_resolution(2560, 1440)
        .with_bitrate_kbps(12_000)
        .with_framerate(120)
        .with_preset(EncoderPreset::Slow)
        .with_rate_control(RateControl::Cqp { qp: 20 })
        .with_gop_size(240)
        .with_tuning(EncoderTuning::LowLatency);
    assert_eq!(c.codec, Codec::Av1);
    assert_eq!(c.resolution, Some(Resolution::new(2560, 1440)));
    assert_eq!(c.bitrate_kbps, 12_000);
    assert_eq!(c.framerate, Framerate::new(120, 1));
    assert_eq!(c.preset, EncoderPreset::Slow);
    assert_eq!(c.rate_control, RateControl::Cqp { qp: 20 });
    assert_eq!(c.gop_size, 240);
    assert_eq!(c.tuning, EncoderTuning::LowLatency);
}

#[test]
fn hdr_builders_force_ten_bit_formats() {
    let c = EncoderConfig::default().with_hdr10();
    assert_eq!(c.pixel_format, FrameFormat::P010);
    assert!(c.is_hdr());
    let h = EncoderConfig::default().with_hlg();
    assert_eq!(h.pixel_format, FrameFormat::P010);
    assert!(h.is_hdr());
    assert!(!EncoderConfig::default().is_hdr());
}

#[test]
fn capture_config_builders_compose() {
    let c = CaptureConfig::default()
        .with_fps(120)
        .with_show_cursor(false)
        .with_backend(CaptureBackend::Portal);
    assert_eq!(c.framerate, Framerate::new(120, 1));
    assert!(!c.show_cursor);
    assert_eq!(c.backend, CaptureBackend::Portal);
    assert!(c.prefer_dmabuf);
}

#[test]
fn nvenc_preset_and_tuning_names() {
    assert_eq!(EncoderPreset::Fastest.to_nvenc_preset(), "p1");
    assert_eq!(EncoderPreset::Fast.to_nvenc_preset(), "p3");
    assert_eq!(EncoderPreset::Medium.to_nvenc_preset(), "p4");
    assert_eq!(EncoderPreset::Slow.to_nvenc_preset(), "p5");
    assert_eq!(EncoderPreset::Slowest.to_nvenc_preset(), "p7");
    assert_eq!(EncoderTuning::HighQuality.to_nvenc_tuning(), "hq");
    assert_eq!(EncoderTuning::LowLatency.to_nvenc_tuning(), "ll");
    assert_eq!(EncoderTuning::UltraLowLatency.to_nvenc_tuning(), "ull");
    assert_eq!(EncoderTuning::Lossless.to_nvenc_tuning(), "lossless");
}

#[test]
fn decimal_rendering_matches_formatting() {
    assert_eq!(text::u64_to_string(0), "0");
    assert_eq!(text::u64_to_string(7), "7");
    assert_eq!(text::u64_to_string(12_345), "12345");
    assert_eq!(text::u64_to_string(u64::MAX), format!("{}", u64::MAX));
    assert_eq!(text::i64_to_string(-42), "-42");
    assert_eq!(text::i64_to_string(0), "0");
    assert_eq!(text::i64_to_string(i64::MIN), format!("{}", i64::MIN));
}

#[test]
fn substring_searches_behave_like_std() {
    assert!(text::str_starts_with("rtmp://x", "rtmp://"));
    assert!(!text::str_starts_with("rtsp://x", "rtmp://"));
    assert!(!text::str_starts_with("rt", "rtmp://"));
    assert!(text::contains_char("a?b", '?'));
    assert!(!text::contains_char("ab", '?'));
    assert!(text::str_contains("GeForce RTX 4090", "RTX 40"));
    assert!(!text::str_contains("GeForce RTX 3090", "RTX 40"));
    assert_eq!(text::rfind_char("a/b/c", '/'), Some(3));
    assert_eq!(text::rfind_char("abc", '/'), None);
}

#[test]
fn plane_layouts_decompose_the_packed_buffer() {
    assert_eq!(
        FrameFormat::Nv12.plane_layout(4, 4),
        vec![(0, 16), (16, 8)]
    );
    assert_eq!(
        FrameFormat::Yuv420p.plane_layout(4, 4),
        vec![(0, 16), (16, 4), (20, 4)]
    );
    assert_eq!(
        FrameFormat::Yuv444p.plane_layout(2, 2),
        vec![(0, 4), (4, 4), (8, 4)]
    );
    assert_eq!(FrameFormat::Bgra.plane_layout(2, 2), vec![(0, 16)]);
    assert_eq!(FrameFormat::Rgb24.plane_layout(2, 2), vec![(0, 12)]);
    assert_eq!(FrameFormat::P010.plane_layout(2, 2), vec![(0, 8), (8, 4)]);
}

#[test]
fn equality_and_suffix_checks_behave_like_std() {
    assert!(text::str_eq("camera", "camera"));
    assert!(!text::str_eq("camera", "cameras"));
    assert!(!text::str_eq("cameras", "camera"));
    assert!(text::str_ends_with("out.mkv", ".mkv"));
    assert!(!text::str_ends_with("out.mkv", ".mp4"));
    assert!(!text::str_ends_with("kv", ".mkv"));
    assert!(text::str_ends_with("anything", ""));
}
