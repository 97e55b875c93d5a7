//! Tests for the pipeline lifecycle, the session counters, the encoder
//! session, backend selection, and capture plumbing.

use ghoststream::audio::{list_audio_sources, AudioCodec, AudioFrame, AudioPacket, AudioSource, ChannelLayout, SampleFormat, AudioEncoderConfig};
use ghoststream::capture::dmabuf::{fourcc, DmaBufImporter, DmaBufInfo, DRM_FORMAT_ARGB8888, DRM_FORMAT_NV12};
use ghoststream::capture::stream::frame_from_buffer;
use ghoststream::capture::{select_backend, StreamFormatRequest};
use ghoststream::config::{CaptureBackend, CaptureConfig, EncoderConfig};
use ghoststream::encode::amf::build_amf_options;
use ghoststream::encode::nvenc::{build_nvenc_options, get_capabilities, has_dual_encoder};
use ghoststream::encode::qsv::build_qsv_options;
use ghoststream::encode::software::{build_software_options, CpuPreset};
use ghoststream::encode::{
    bitrate_kbps, select_encoder_backend, get_info, Codec, EncoderBackend, EncoderProbe,
    EncoderSession, EncoderState,
};
use ghoststream::error::Error;
use ghoststream::output::{Container, Output};
use ghoststream::pipeline::{
    encoder_loop_step, resolve_codec_params, target_format_for, use_av_muxer, AudioConfig,
    ChannelPoll, EncoderLoopAction, Pipeline, PipelineBuilder, SessionCounters,
};
use ghoststream::types::{FrameFormat, Resolution};

#[test]
fn test_nvenc_detection() {
    let caps = get_capabilities(false, false, false, false, None, None);
    println!("NVENC Capabilities: {:?}", caps);
}

#[test]
fn pipeline_start_stop_start_is_reentrant() {
    let mut p = Pipeline::new(
        CaptureConfig::default(),
        EncoderConfig::default(),
        Output::file("out.mkv".into(), Container::Matroska),
    )
    .unwrap();
    assert!(!p.is_running());
    p.start().unwrap();
    assert!(p.is_running());
    // A second start is refused while the session runs.
    assert!(matches!(p.start(), Err(Error::PipelineAlreadyRunning)));
    p.stop().unwrap();
    assert!(!p.is_running());
    // After a stop, a new session may start.
    p.start().unwrap();
    assert!(p.is_running());
}

#[test]
fn stopping_an_idle_pipeline_is_harmless() {
    let mut p = Pipeline::new(
        CaptureConfig::default(),
        EncoderConfig::default(),
        Output::Null,
    )
    .unwrap();
    p.stop().unwrap();
    assert!(!p.is_running());
}

#[test]
fn session_counters_balance() {
    let mut c = SessionCounters::new();
    c.record_captured();
    c.record_captured();
    c.record_captured();
    c.record_encoded(100);
    c.record_encoded(50);
    c.record_written();
    assert_eq!(c.frames_captured, 3);
    assert_eq!(c.frames_encoded, 2);
    assert_eq!(c.frames_written, 1);
    assert_eq!(c.frames_dropped, 1);
    assert_eq!(c.bytes_written, 150);
    assert!(c.frames_captured >= c.frames_encoded);
    assert!(c.frames_encoded >= c.frames_written);
    assert_eq!(c.frames_dropped, c.frames_captured - c.frames_encoded);
    let stats = c.to_stats();
    assert_eq!(stats.frames_captured, 3);
    assert_eq!(stats.frames_dropped, 1);
    assert_eq!(stats.bytes_written, 150);
}

#[test]
fn pipeline_builder_assembles_the_configuration() {
    let p = PipelineBuilder::new()
        .codec(Codec::Hevc)
        .resolution(2560, 1440)
        .bitrate(12_000)
        .fps(120)
        .audio_codec(AudioCodec::Opus)
        .audio_bitrate(160)
        .output(Output::file("g.mkv".into(), Container::Matroska))
        .build()
        .unwrap();
    assert_eq!(p.encoder_config.codec, Codec::Hevc);
    assert_eq!(p.encoder_config.resolution, Some(Resolution::new(2560, 1440)));
    assert_eq!(p.encoder_config.bitrate_kbps, 12_000);
    assert_eq!(p.capture_config.framerate.num, 120);
    assert!(p.audio_config.enabled);
    assert_eq!(p.audio_config.codec, AudioCodec::Opus);
    assert_eq!(p.audio_config.bitrate, 160_000);
    assert!(!p.running);
}

#[test]
fn target_format_prefers_encoder_native_input() {
    let nv12 = EncoderConfig::default();
    assert_eq!(target_format_for(&nv12), Some(FrameFormat::Nv12));
    let mut p010 = EncoderConfig::default();
    p010.pixel_format = FrameFormat::P010;
    assert_eq!(target_format_for(&p010), Some(FrameFormat::P010));
    let mut packed = EncoderConfig::default();
    packed.pixel_format = FrameFormat::Bgra;
    assert_eq!(target_format_for(&packed), Some(FrameFormat::Nv12));
}

#[test]
fn av_muxing_needs_a_file_output_with_audio() {
    let file = Output::file("x.mkv".into(), Container::Matroska);
    let rtmp = Output::rtmp("rtmp://a/b".into());
    assert!(use_av_muxer(&file, true, true));
    assert!(!use_av_muxer(&file, true, false));
    assert!(!use_av_muxer(&file, false, true));
    assert!(!use_av_muxer(&rtmp, true, true));
}

#[test]
fn missing_codec_params_fall_back_only_for_files() {
    let file = Output::file("x.mkv".into(), Container::Matroska);
    let fallback = resolve_codec_params(None, &file).unwrap();
    assert_eq!(fallback.codec, Codec::H264);
    assert_eq!(fallback.resolution, Resolution::new(1920, 1080));
    assert_eq!(fallback.bitrate, 6_000_000);
    let rtmp = Output::rtmp("rtmp://a/b".into());
    assert!(matches!(resolve_codec_params(None, &rtmp), Err(Error::Pipeline(_))));
    let mut real = ghoststream::types::CodecParams::default();
    real.bitrate = 1;
    assert_eq!(resolve_codec_params(Some(real), &rtmp).unwrap().bitrate, 1);
}

#[test]
fn encoder_loop_steps_follow_the_shutdown_protocol() {
    assert_eq!(encoder_loop_step(true, ChannelPoll::Delivered), EncoderLoopAction::Process);
    assert_eq!(encoder_loop_step(true, ChannelPoll::TimedOut), EncoderLoopAction::Idle);
    assert_eq!(encoder_loop_step(true, ChannelPoll::Closed), EncoderLoopAction::Exit);
    assert_eq!(encoder_loop_step(false, ChannelPoll::Delivered), EncoderLoopAction::Exit);
}

#[test]
fn encoder_session_publishes_parameters_exactly_once() {
    let mut s = EncoderSession::new(EncoderConfig::default().with_resolution(1280, 720));
    assert_eq!(s.state, EncoderState::Created);
    let init = s.bind(1920, 1080);
    assert_eq!((init.width, init.height), (1280, 720));
    assert!(init.needs_scaler);
    assert_eq!((init.time_base_num, init.time_base_den), (1, 1000));
    // First packet publishes, every later one does not.
    assert!(s.on_packet(100));
    assert!(!s.on_packet(100));
    assert!(!s.on_packet(100));
    assert_eq!(s.frames_encoded, 3);
    assert_eq!(s.bytes_output, 300);
    let params = s.codec_params(vec![1, 2, 3]);
    assert_eq!(params.resolution, Resolution::new(1280, 720));
    assert_eq!(params.extradata, vec![1, 2, 3]);
    assert_eq!(params.bitrate, 6_000_000);
    s.flush();
    assert_eq!(s.state, EncoderState::Flushed);
}

#[test]
fn encoder_session_binds_input_geometry_without_a_target() {
    let mut s = EncoderSession::new(EncoderConfig::default());
    let init = s.bind(1920, 1080);
    assert_eq!((init.width, init.height), (1920, 1080));
    assert!(!init.needs_scaler);
    let params = s.codec_params(Vec::new());
    assert_eq!(params.resolution, Resolution::new(1920, 1080));
}

#[test]
fn backend_selection_prefers_hardware() {
    assert_eq!(
        select_encoder_backend(EncoderBackend::Auto, true, true).unwrap(),
        EncoderBackend::Nvenc
    );
    assert_eq!(
        select_encoder_backend(EncoderBackend::Auto, false, true).unwrap(),
        EncoderBackend::Software
    );
    assert!(matches!(
        select_encoder_backend(EncoderBackend::Auto, false, false),
        Err(Error::CodecNotSupported(_))
    ));
    assert_eq!(
        select_encoder_backend(EncoderBackend::Software, true, true).unwrap(),
        EncoderBackend::Software
    );
}

#[test]
fn capture_backend_selection_honours_the_environment() {
    let auto = CaptureConfig::default();
    assert_eq!(select_backend(&auto, true, true), CaptureBackend::WlrExport);
    assert_eq!(select_backend(&auto, true, false), CaptureBackend::Portal);
    assert_eq!(select_backend(&auto, false, true), CaptureBackend::Portal);
    let explicit = CaptureConfig::default().with_backend(CaptureBackend::PipeWire);
    assert_eq!(select_backend(&explicit, true, true), CaptureBackend::PipeWire);
    let mut no_dmabuf = CaptureConfig::default();
    no_dmabuf.prefer_dmabuf = false;
    assert_eq!(select_backend(&no_dmabuf, true, true), CaptureBackend::Portal);
}

#[test]
fn format_negotiation_offers_the_full_ranges() {
    let req = StreamFormatRequest::for_config(&CaptureConfig::default(), Resolution::new(2560, 1440));
    assert_eq!((req.preferred_width, req.preferred_height), (2560, 1440));
    assert_eq!((req.min_dimension, req.max_width, req.max_height), (1, 7680, 4320));
    assert_eq!((req.min_fps, req.preferred_fps, req.max_fps), (1, 60, 240));
}

#[test]
fn empty_buffers_carry_no_frame() {
    assert!(frame_from_buffer(Vec::new(), 2, 2, 8, FrameFormat::Bgra, 5).is_none());
    let f = frame_from_buffer(vec![0u8; 16], 2, 2, 8, FrameFormat::Bgra, 5).unwrap();
    assert_eq!(f.pts, 5);
    assert_eq!(f.width, 2);
    assert_eq!(f.dmabuf_fd, None);
}

#[test]
fn drm_codes_map_to_frame_formats() {
    assert_eq!(fourcc(b"NV12"), DRM_FORMAT_NV12);
    assert_eq!(fourcc(b"AR24"), DRM_FORMAT_ARGB8888);
    let mut info = DmaBufInfo {
        fd: 3,
        width: 1920,
        height: 1080,
        stride: 7680,
        format: DRM_FORMAT_NV12,
        modifier: 0,
        num_planes: 2,
        offsets: [0; 4],
        strides: [0; 4],
    };
    assert!(info.is_linear());
    assert_eq!(info.frame_format(), Some(FrameFormat::Nv12));
    info.format = DRM_FORMAT_ARGB8888;
    assert_eq!(info.frame_format(), Some(FrameFormat::Bgra));
    info.format = 1;
    assert_eq!(info.frame_format(), None);
    info.modifier = 7;
    assert!(!info.is_linear());
    let importer = DmaBufImporter::new().unwrap();
    assert!(importer.import(&info).is_ok());
}

#[test]
fn nvenc_option_table_follows_the_configuration() {
    let config = EncoderConfig::default();
    let opts = build_nvenc_options(&config);
    let pairs: Vec<(&str, &str)> = opts.iter().map(|p| (p.0.as_str(), p.1.as_str())).collect();
    assert_eq!(
        pairs,
        vec![("preset", "p4"), ("tune", "hq"), ("rc", "vbr"), ("b", "6000k")]
    );

    let mut ll = EncoderConfig::default();
    ll.rate_control = ghoststream::config::RateControl::Cbr;
    ll.tuning = ghoststream::config::EncoderTuning::LowLatency;
    ll.lookahead = Some(8);
    let opts2 = build_nvenc_options(&ll);
    let pairs2: Vec<(&str, &str)> = opts2.iter().map(|p| (p.0.as_str(), p.1.as_str())).collect();
    assert_eq!(
        pairs2,
        vec![
            ("preset", "p4"),
            ("tune", "ll"),
            ("rc", "cbr"),
            ("b", "6000k"),
            ("rc-lookahead", "8"),
            ("delay", "0"),
            ("zerolatency", "1"),
        ]
    );
}

#[test]
fn software_option_table_follows_the_configuration() {
    let config = EncoderConfig::default();
    let opts = build_software_options(&config, CpuPreset::Veryfast, 14);
    let pairs: Vec<(&str, &str)> = opts.iter().map(|p| (p.0.as_str(), p.1.as_str())).collect();
    assert_eq!(
        pairs,
        vec![("preset", "veryfast"), ("threads", "14"), ("b", "6000k")]
    );

    let mut av1 = EncoderConfig::default().with_codec(Codec::Av1);
    av1.rate_control = ghoststream::config::RateControl::Cbr;
    let opts2 = build_software_options(&av1, CpuPreset::Medium, 8);
    let pairs2: Vec<(&str, &str)> = opts2.iter().map(|p| (p.0.as_str(), p.1.as_str())).collect();
    assert_eq!(
        pairs2,
        vec![("preset", "6"), ("threads", "8"), ("rc", "1"), ("tbr", "6000k")]
    );
}

#[test]
fn realtime_presets_scale_with_throughput() {
    assert_eq!(
        CpuPreset::for_realtime(60, Resolution::new(3840, 2160)),
        CpuPreset::Superfast
    );
    assert_eq!(
        CpuPreset::for_realtime(120, Resolution::new(3840, 2160)),
        CpuPreset::Ultrafast
    );
    assert_eq!(
        CpuPreset::for_realtime(60, Resolution::new(1920, 1080)),
        CpuPreset::Faster
    );
    assert_eq!(
        CpuPreset::for_realtime(120, Resolution::new(1920, 1080)),
        CpuPreset::Veryfast
    );
    assert_eq!(
        CpuPreset::for_realtime(30, Resolution::new(1280, 720)),
        CpuPreset::Fast
    );
}

#[test]
fn dual_encoder_generations_are_recognized() {
    assert!(has_dual_encoder(&Some("NVIDIA GeForce RTX 4090".into())));
    assert!(has_dual_encoder(&Some("NVIDIA GeForce RTX 5080".into())));
    assert!(!has_dual_encoder(&Some("NVIDIA GeForce RTX 3080".into())));
    assert!(!has_dual_encoder(&None));
}

#[test]
fn encoder_report_merges_hardware_and_software() {
    let probe = EncoderProbe {
        nvenc_available: true,
        nvenc_hevc: true,
        nvenc_av1: false,
        gpu_name: Some("NVIDIA GeForce RTX 4070".into()),
        driver_version: Some("550.00".into()),
        x264: true,
        x265: false,
        svtav1: true,
        cpu: None,
    };
    let info = get_info(&probe);
    assert!(info.nvenc_available);
    assert_eq!(info.nvenc_codecs, vec![Codec::H264, Codec::Hevc]);
    assert!(info.dual_encoder);
    assert!(!info.nvenc_av1);
    assert!(info.av1_support());
    let all = info.supported_codecs();
    assert!(all.contains(&Codec::H264));
    assert!(all.contains(&Codec::Hevc));
    assert!(all.contains(&Codec::Av1));
}

#[test]
fn audio_types_measure_their_shapes() {
    assert_eq!(SampleFormat::S16.bytes_per_sample(), 2);
    assert_eq!(SampleFormat::F32.bytes_per_sample(), 4);
    assert!(SampleFormat::F32P.is_planar());
    assert!(!SampleFormat::F32.is_planar());
    assert_eq!(SampleFormat::F32P.ffmpeg_format(), "fltp");
    assert_eq!(ChannelLayout::Stereo.channels(), 2);
    assert_eq!(ChannelLayout::Surround51.channels(), 6);
    assert_eq!(ChannelLayout::Surround71.ffmpeg_layout(), "7.1");

    let f = AudioFrame::new(1024, 2, SampleFormat::F32, 48_000);
    assert_eq!(f.size_bytes(), 8192);
    assert_eq!(f.calculated_duration_us(), 21_333);
    let d = AudioFrame::from_data(vec![1, 2, 3, 4], 1, 1, SampleFormat::F32, 48_000);
    assert_eq!(d.size_bytes(), 4);

    let p = AudioPacket::new(vec![1, 2], 1024, 1024);
    assert_eq!(p.size(), 2);

    assert_eq!(AudioCodec::Aac.encoder_name(), "aac");
    assert_eq!(AudioCodec::Opus.encoder_name(), "libopus");
    assert_eq!(AudioCodec::Mp3.display_name(), "MP3");
    assert_eq!(AudioCodec::Flac.recommended_bitrate(), 0);
    assert_eq!(AudioCodec::Opus.recommended_bitrate(), 128_000);

    let cfg = AudioEncoderConfig::default().with_bitrate(0).with_codec(AudioCodec::Opus);
    assert_eq!(cfg.bitrate, 128_000);

    let sources = list_audio_sources();
    assert_eq!(sources.len(), 3);
    assert_eq!(sources[0], AudioSource::Desktop);

    let audio = AudioConfig::default();
    assert!(!audio.enabled);
    assert_eq!(audio.sample_rate, 48_000);
    assert_eq!(audio.channels, 2);
    assert_eq!(audio.bitrate, 192_000);
}

#[test]
fn audio_sessions_stamp_in_samples() {
    let mut s = ghoststream::audio::encode::AudioEncoderSession::new(AudioEncoderConfig::default());
    assert_eq!(s.frame_size, 1024);
    s.on_opened(0);
    assert_eq!(s.frame_size, 1024);
    s.on_opened(960);
    assert_eq!(s.frame_size, 960);
    assert_eq!(s.stamp_frame(1024), 0);
    assert_eq!(s.stamp_frame(1024), 1024);
    assert_eq!(s.stamp_frame(512), 2048);
    s.on_packet(100);
    s.on_packet(28);
    let stats = s.stats();
    assert_eq!(stats.frames_encoded, 2);
    assert_eq!(stats.bytes_output, 128);
    let params = s.params(vec![7, 8]);
    assert_eq!(params.sample_rate, 48_000);
    assert_eq!(params.channels, 2);
    assert_eq!(params.extradata, vec![7, 8]);
}


#[test]
fn session_bitrate_follows_bytes_over_time() {
    assert_eq!(bitrate_kbps(0, 0), 0);
    assert_eq!(bitrate_kbps(1_000_000, 0), 0);
    // One megabyte over one second: eight megabits over a thousand
    // milliseconds is eight thousand kilobits per second.
    assert_eq!(bitrate_kbps(1_000_000, 1000), 8000);
    assert_eq!(bitrate_kbps(125, 1), 1000);

    let mut c = SessionCounters::new();
    c.record_captured();
    c.record_encoded(125_000);
    let stats = c.to_stats_with_elapsed(1000);
    assert_eq!(stats.current_bitrate_kbps, 1000);
    assert_eq!(stats.bytes_written, 125_000);
}

#[test]
fn supported_codec_list_extends_in_place_without_duplicates() {
    let probe = EncoderProbe {
        nvenc_available: true,
        nvenc_hevc: true,
        nvenc_av1: false,
        gpu_name: None,
        driver_version: None,
        x264: true,
        x265: false,
        svtav1: true,
        cpu: None,
    };
    let info = get_info(&probe);
    // The hardware list leads in order; only the software-only codec
    // is appended.
    assert_eq!(info.supported_codecs(), vec![Codec::H264, Codec::Hevc, Codec::Av1]);

    let software_only = EncoderProbe {
        nvenc_available: false,
        nvenc_hevc: false,
        nvenc_av1: false,
        gpu_name: None,
        driver_version: None,
        x264: true,
        x265: true,
        svtav1: false,
        cpu: None,
    };
    let info2 = get_info(&software_only);
    assert_eq!(info2.supported_codecs(), vec![Codec::H264, Codec::Hevc]);
}

#[test]
fn amd_and_intel_option_tables_follow_the_configuration() {
    let config = EncoderConfig::default();
    let amf_opts = build_amf_options(&config);
    let amf: Vec<(&str, &str)> = amf_opts.iter().map(|p| (p.0.as_str(), p.1.as_str())).collect();
    assert_eq!(
        amf,
        vec![
            ("usage", "transcoding"),
            ("quality", "balanced"),
            ("rc", "vbr_peak"),
            ("bf", "2"),
        ]
    );

    let mut ll = EncoderConfig::default().with_tuning(ghoststream::config::EncoderTuning::LowLatency);
    ll.rate_control = ghoststream::config::RateControl::Cqp { qp: 22 };
    ll.b_frames = 0;
    let amf_ll_opts = build_amf_options(&ll);
    let amf_ll: Vec<(&str, &str)> =
        amf_ll_opts.iter().map(|p| (p.0.as_str(), p.1.as_str())).collect();
    assert_eq!(
        amf_ll,
        vec![
            ("usage", "ultralowlatency"),
            ("quality", "balanced"),
            ("rc", "cqp"),
            ("qp_i", "22"),
            ("qp_p", "22"),
        ]
    );

    let qsv_opts = build_qsv_options(&config);
    let qsv: Vec<(&str, &str)> = qsv_opts.iter().map(|p| (p.0.as_str(), p.1.as_str())).collect();
    assert_eq!(qsv, vec![("preset", "medium"), ("look_ahead", "1")]);

    let qsv_ll_opts = build_qsv_options(&ll);
    let qsv_ll: Vec<(&str, &str)> =
        qsv_ll_opts.iter().map(|p| (p.0.as_str(), p.1.as_str())).collect();
    // The low-latency switch repeats the lookahead key; the backend's
    // dictionary keeps the last value.
    assert_eq!(
        qsv_ll,
        vec![
            ("preset", "medium"),
            ("global_quality", "22"),
            ("low_power", "1"),
            ("look_ahead", "0"),
        ]
    );

    let amf_caps = ghoststream::encode::amf::get_capabilities(true, true, true, false, None);
    assert!(amf_caps.available && amf_caps.h264 && !amf_caps.av1);
    let qsv_caps = ghoststream::encode::qsv::get_capabilities(false, false, false, false, None);
    assert!(!qsv_caps.available);
}
