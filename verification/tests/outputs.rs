//! Tests for the output sinks: containers, routing, accounting,
//! idempotent initialization, and the stream-order monitor.

use ghoststream::error::Error;
use ghoststream::output::camera::VirtualCamera;
use ghoststream::output::file::FileOutput;
use ghoststream::output::muxer::{rescale_ts, AvMuxer, MuxerPacket, StreamType};
use ghoststream::output::rtmp::{RtmpOutput, RtmpService};
use ghoststream::output::srt::{SrtMode, SrtOutput};
use ghoststream::output::{create_output, AnySink, Container, MultiOutput, NullOutput, Output};
use ghoststream::audio::{AudioPacket, AudioParams};
use ghoststream::types::{CodecParams, Frame, FrameFormat, Packet, Resolution};

#[test]
fn test_container_extensions() {
    assert_eq!(Container::Matroska.extension(), "mkv");
    assert_eq!(Container::Mp4.extension(), "mp4");
    assert_eq!(Container::WebM.extension(), "webm");
    assert_eq!(Container::Ts.extension(), "ts");
}

#[test]
fn test_container_ffmpeg_formats() {
    assert_eq!(Container::Matroska.ffmpeg_format(), "matroska");
    assert_eq!(Container::Mp4.ffmpeg_format(), "mp4");
    assert_eq!(Container::WebM.ffmpeg_format(), "webm");
    assert_eq!(Container::Ts.ffmpeg_format(), "mpegts");
}

#[test]
fn create_output_returns_the_matching_sink_kind() {
    let file = create_output(Output::file("out.mkv".into(), Container::Matroska)).unwrap();
    assert!(matches!(file, AnySink::File(_)));
    let rtmp = create_output(Output::rtmp("rtmp://host/app/key".into())).unwrap();
    assert!(matches!(rtmp, AnySink::Rtmp(_)));
    let srt = create_output(Output::srt("srt://host:9000".into(), 200)).unwrap();
    assert!(matches!(srt, AnySink::Srt(_)));
    let cam = create_output(Output::virtual_camera("Cam".into())).unwrap();
    assert!(matches!(cam, AnySink::VirtualCamera(_)));
    let null = create_output(Output::Null).unwrap();
    assert!(matches!(null, AnySink::Null(_)));
    let multi = create_output(Output::multiple(vec![
        Output::Null,
        Output::file("a.mp4".into(), Container::Mp4),
    ]))
    .unwrap();
    match multi {
        AnySink::Multi(m) => assert_eq!(m.outputs.len(), 2),
        _ => panic!("expected a fan-out"),
    }
}

#[test]
fn empty_fan_out_is_rejected() {
    assert!(matches!(
        create_output(Output::multiple(vec![])),
        Err(Error::OutputInit(_))
    ));
    // Nested fan-outs are skipped; nothing else remains here.
    assert!(matches!(
        MultiOutput::new(vec![Output::multiple(vec![Output::Null])]),
        Err(Error::OutputInit(_))
    ));
}

#[test]
fn file_output_initialization_is_idempotent() {
    let mut f = FileOutput::new("rec.mkv".into(), Container::Matroska);
    assert_eq!(f.path(), "rec.mkv");
    let params = CodecParams::default();
    f.init_with_codec(Some(&params)).unwrap();
    assert!(f.initialized);
    assert_eq!(f.time_base_den, 1000);
    // A second initialization changes nothing and succeeds.
    let mut other = CodecParams::default();
    other.time_base_den = 90_000;
    f.init_with_codec(Some(&other)).unwrap();
    assert_eq!(f.time_base_den, 1000);
    assert_eq!(f.bytes_written(), 0);
}

#[test]
fn file_output_counts_every_payload_byte() {
    let mut f = FileOutput::new("rec.mkv".into(), Container::Matroska);
    f.init_with_codec(None).unwrap();
    f.write(&Packet::new(vec![0u8; 3], 0, 0, true)).unwrap();
    f.write(&Packet::new(vec![0u8; 5], 16_667, 16_667, false)).unwrap();
    assert_eq!(f.bytes_written(), 8);
    f.finish().unwrap();
    assert_eq!(f.bytes_written(), 8);
    // Finishing twice behaves as finishing once.
    f.finish().unwrap();
    assert_eq!(f.bytes_written(), 8);
    assert!(f.ledger.ordered);
}

#[test]
fn order_monitor_flags_a_regressing_stream() {
    let mut f = FileOutput::new("rec.mkv".into(), Container::Matroska);
    f.write(&Packet::new(vec![1], 100, 100, true)).unwrap();
    f.write(&Packet::new(vec![1], 200, 150, false)).unwrap();
    assert!(f.ledger.ordered);
    // Presentation going backwards trips the monitor.
    f.write(&Packet::new(vec![1], 120, 160, false)).unwrap();
    assert!(!f.ledger.ordered);
}

#[test]
fn order_monitor_rejects_decode_after_presentation() {
    let mut n = NullOutput::new();
    n.write(&Packet::new(vec![1], 10, 20, true)).unwrap();
    assert!(!n.ledger.ordered);
}

#[test]
fn rtmp_urls_are_validated_at_initialization() {
    let mut bad = RtmpOutput::new("http://example.com/live".into());
    assert!(matches!(bad.init_with_codec(None), Err(Error::Rtmp(_))));
    assert!(!bad.initialized);
    // A write on an uninitialized invalid sink fails the same way.
    assert!(matches!(bad.write(&Packet::new(vec![1], 0, 0, true)), Err(Error::Rtmp(_))));

    let mut good = RtmpOutput::new("rtmp://live.example/app/key".into());
    good.init_with_codec(None).unwrap();
    assert!(good.initialized && good.connected);
    good.write(&Packet::new(vec![0u8; 7], 0, 0, true)).unwrap();
    assert_eq!(good.bytes_written(), 7);
    good.finish().unwrap();
    assert!(!good.connected);

    let mut secure = RtmpOutput::new("rtmps://live.example/app/key".into());
    assert!(secure.init_with_codec(None).is_ok());
}

#[test]
fn rtmp_masking_hides_the_stream_key() {
    let r = RtmpOutput::new("rtmp://live.example/app/SECRET".into());
    assert_eq!(r.url_masked(), "rtmp://live.example/app/*****");
    let no_slash = RtmpOutput::new("nokey".into());
    assert_eq!(no_slash.url_masked(), "rtmp://*****");
}

#[test]
fn rtmp_reconnects_are_bounded() {
    let mut r = RtmpOutput::new("rtmp://a/b".into()).with_max_reconnects(2);
    r.try_reconnect().unwrap();
    r.try_reconnect().unwrap();
    assert!(matches!(r.try_reconnect(), Err(Error::Rtmp(_))));
    // A successful write resets the budget.
    r.write(&Packet::new(vec![1], 0, 0, true)).unwrap();
    assert_eq!(r.reconnect_attempts, 0);
}

#[test]
fn rtmp_service_urls_compose() {
    assert_eq!(
        RtmpService::twitch("live.twitch.tv", "key1"),
        "rtmp://live.twitch.tv/app/key1"
    );
    assert_eq!(
        RtmpService::youtube("key2"),
        "rtmp://a.rtmp.youtube.com/live2/key2"
    );
    assert_eq!(
        RtmpService::facebook("key3"),
        "rtmps://live-api-s.facebook.com:443/rtmp/key3"
    );
    assert_eq!(RtmpService::kick("rtmps://in.kick.com", "key4"), "rtmps://in.kick.com/key4");
    assert_eq!(RtmpService::twitch_ingest_servers().len(), 7);
}

#[test]
fn srt_latency_is_clamped_and_the_url_carries_the_options() {
    let s = SrtOutput::new("srt://host:9000".into(), 150);
    assert_eq!(s.latency_ms, 150);
    assert_eq!(
        s.build_srt_url(),
        "srt://host:9000?mode=caller&latency=150000&transtype=live"
    );
    assert_eq!(SrtOutput::new("srt://h".into(), 5).latency_ms, 20);
    assert_eq!(SrtOutput::new("srt://h".into(), 99_999).latency_ms, 8000);

    let full = SrtOutput::new("srt://host:9000?x=1".into(), 20)
        .with_mode(SrtMode::Listener)
        .with_passphrase("pass".into())
        .with_streamid("sid".into())
        .with_key_length(16)
        .with_max_bandwidth(-1);
    assert_eq!(
        full.build_srt_url(),
        "srt://host:9000?x=1&mode=listener&latency=20000&passphrase=pass&streamid=sid&pbkeylen=16&maxbw=-1&transtype=live"
    );
}

#[test]
fn srt_urls_are_validated_at_initialization() {
    let mut bad = SrtOutput::new("udp://host".into(), 100);
    assert!(matches!(bad.init_with_codec(None), Err(Error::Srt(_))));
    let mut good = SrtOutput::new("srt://host:9000".into(), 100);
    good.init_with_codec(None).unwrap();
    good.write(&Packet::new(vec![0u8; 4], 0, 0, true)).unwrap();
    assert_eq!(good.bytes_written(), 4);
    good.finish().unwrap();
    assert!(!good.initialized);
}

#[test]
fn virtual_camera_converts_and_accounts_frames() {
    let mut cam = VirtualCamera::new("Cam".into());
    let frame = Frame::new(2, 2, FrameFormat::Rgba);
    cam.write_frame(&frame).unwrap();
    assert!(cam.initialized);
    assert_eq!(cam.width, 2);
    assert_eq!(cam.bytes_written(), 16);
    // A format with no direct path to the packed layout is rejected.
    let planar = Frame::new(2, 2, FrameFormat::Yuv444p);
    assert!(matches!(cam.write_frame(&planar), Err(Error::ColorspaceConversion(_))));
    cam.finish().unwrap();
    assert!(!cam.active);
}

#[test]
fn virtual_camera_init_raw_is_idempotent() {
    let mut cam = VirtualCamera::new("Cam".into()).with_resolution(640, 480).with_format(
        FrameFormat::Bgra,
    );
    cam.init_raw(Resolution::new(1280, 720), FrameFormat::Bgra).unwrap();
    assert_eq!((cam.width, cam.height), (1280, 720));
    cam.init_raw(Resolution::new(64, 64), FrameFormat::Nv12).unwrap();
    assert_eq!((cam.width, cam.height), (1280, 720));
}

#[test]
fn multi_output_feeds_every_destination() {
    let mut m = MultiOutput::new(vec![Output::Null, Output::rtmp("rtmp://a/b".into())]).unwrap();
    m.init_with_codec(None).unwrap();
    m.write(&Packet::new(vec![0u8; 6], 0, 0, true)).unwrap();
    assert_eq!(m.bytes_written(), 6);
    m.finish().unwrap();
    assert_eq!(m.bytes_written(), 6);
}

#[test]
fn multi_output_fails_only_when_every_destination_fails() {
    let mut all_bad = MultiOutput::new(vec![Output::rtmp("x".into())]).unwrap();
    assert!(matches!(all_bad.init_with_codec(None), Err(Error::Rtmp(_))));
    let mut mixed = MultiOutput::new(vec![Output::rtmp("x".into()), Output::Null]).unwrap();
    assert!(mixed.init_with_codec(None).is_ok());
}

#[test]
fn muxer_protocol_is_enforced() {
    let mut m = AvMuxer::new("av.mkv".into(), "matroska".into()).unwrap();
    // Writing before the header fails.
    assert!(matches!(
        m.write_video(&Packet::new(vec![1], 0, 0, true)),
        Err(Error::Muxer(_))
    ));
    m.add_video_stream(&CodecParams::default()).unwrap();
    assert!(!m.has_audio());
    m.start().unwrap();
    m.start().unwrap();
    m.write_video(&Packet::new(vec![0u8; 10], 0, 0, true)).unwrap();
    // No audio stream was declared.
    assert!(matches!(
        m.write_audio(&AudioPacket::new(vec![1], 0, 0)),
        Err(Error::Muxer(_))
    ));
    m.finish().unwrap();
    m.finish().unwrap();
    assert_eq!(m.bytes_written(), 10);
}

#[test]
fn muxer_interleaves_audio_and_video_accounting() {
    let mut m = AvMuxer::new("av.mkv".into(), "matroska".into()).unwrap();
    m.add_video_stream(&CodecParams::default()).unwrap();
    m.add_audio_stream(&AudioParams::default()).unwrap();
    assert!(m.has_audio());
    m.start().unwrap();
    m.write_packet(&MuxerPacket::Video(Packet::new(vec![0u8; 8], 0, 0, true))).unwrap();
    m.write_packet(&MuxerPacket::Audio(AudioPacket::new(vec![0u8; 3], 0, 0))).unwrap();
    assert_eq!(m.bytes_written(), 11);
    assert_eq!(m.video_ledger.bytes_written, 8);
    assert_eq!(m.audio_ledger.bytes_written, 3);
}

#[test]
fn muxer_packets_know_their_stream() {
    let v = MuxerPacket::Video(Packet::new(vec![1], 42, 40, true));
    assert_eq!(v.stream_type(), StreamType::Video);
    assert_eq!(v.pts(), 42);
    let a = MuxerPacket::Audio(AudioPacket::new(vec![1], 1024, 1024));
    assert_eq!(a.stream_type(), StreamType::Audio);
    assert_eq!(a.pts(), 1024);
}

#[test]
fn timestamp_rescaling_rounds_to_nearest() {
    // Milliseconds to a 90 kHz clock and back.
    assert_eq!(rescale_ts(1000, 1, 1000, 1, 90_000), 90_000);
    assert_eq!(rescale_ts(90_000, 1, 90_000, 1, 1000), 1000);
    // Identity between equal bases.
    assert_eq!(rescale_ts(12_345, 1, 1000, 1, 1000), 12_345);
    // Halves round away from zero.
    assert_eq!(rescale_ts(1, 1, 2, 1, 1), 1);
    assert_eq!(rescale_ts(-1, 1, 2, 1, 1), -1);
    assert_eq!(rescale_ts(1, 1, 3, 1, 1), 0);
}

#[test]
fn outputs_compose_with_and() {
    let combined = Output::file("a.mkv".into(), Container::Matroska).and(Output::rtmp(
        "rtmp://a/b".into(),
    ));
    match combined {
        Output::Multiple(v) => {
            assert_eq!(v.len(), 2);
            assert!(matches!(v[0], Output::File { .. }));
            assert!(matches!(v[1], Output::Rtmp { .. }));
        },
        _ => panic!("expected a fan-out"),
    }
}

#[test]
fn zero_packet_session_closes_cleanly() {
    // Open and immediately finalize a recording: nothing was written,
    // nothing fails, and the sink is reusable state-wise.
    let mut f = FileOutput::new("empty.mkv".into(), Container::Matroska);
    f.init_with_codec(Some(&CodecParams::default())).unwrap();
    f.finish().unwrap();
    assert_eq!(f.bytes_written(), 0);
    assert!(!f.initialized);
    assert!(f.ledger.ordered);
}

#[test]
fn a_hundred_packet_stream_stays_ordered_and_counted() {
    let mut f = FileOutput::new("run.mkv".into(), Container::Matroska);
    f.init_with_codec(None).unwrap();
    let mut expected: u64 = 0;
    for i in 0..100i64 {
        let size = (i % 7 + 1) as usize;
        let pts = i * 16_667;
        f.write(&Packet::new(vec![0u8; size], pts, pts, i % 60 == 0)).unwrap();
        expected += size as u64;
    }
    f.finish().unwrap();
    assert_eq!(f.bytes_written(), expected);
    assert_eq!(f.ledger.frame_count, 100);
    assert!(f.ledger.ordered);
}

#[test]
fn routing_table_maps_targets_to_outputs() {
    assert!(matches!(
        ghoststream::output::route_output("camera".into()),
        Output::VirtualCamera { .. }
    ));
    match ghoststream::output::route_output("rec.mkv".into()) {
        Output::File { path, container } => {
            assert_eq!(path, "rec.mkv");
            assert_eq!(container, Container::Matroska);
        },
        _ => panic!("expected a file output"),
    }
    match ghoststream::output::route_output("clip.mp4".into()) {
        Output::File { container, .. } => assert_eq!(container, Container::Mp4),
        _ => panic!("expected a file output"),
    }
    match ghoststream::output::route_output("clip.webm".into()) {
        Output::File { container, .. } => assert_eq!(container, Container::WebM),
        _ => panic!("expected a file output"),
    }
    match ghoststream::output::route_output("feed.ts".into()) {
        Output::File { container, .. } => assert_eq!(container, Container::Ts),
        _ => panic!("expected a file output"),
    }
    assert!(matches!(
        ghoststream::output::route_output("rtmp://live/app/key".into()),
        Output::Rtmp { .. }
    ));
    assert!(matches!(
        ghoststream::output::route_output("rtmps://live/app/key".into()),
        Output::Rtmp { .. }
    ));
    match ghoststream::output::route_output("srt://host:9000".into()) {
        Output::Srt { latency_ms, .. } => assert_eq!(latency_ms, 200),
        _ => panic!("expected a wire output"),
    }
    match ghoststream::output::route_output("plain-name".into()) {
        Output::File { container, .. } => assert_eq!(container, Container::Matroska),
        _ => panic!("expected a file output"),
    }
}


#[test]
fn muxer_rejects_degenerate_stream_parameters() {
    let mut m = AvMuxer::new("av.mkv".into(), "matroska".into()).unwrap();
    let mut bad_tb = CodecParams::default();
    bad_tb.time_base_den = 0;
    assert!(matches!(m.add_video_stream(&bad_tb), Err(Error::Muxer(_))));
    let mut bad_rate = AudioParams::default();
    bad_rate.sample_rate = 0;
    assert!(matches!(m.add_audio_stream(&bad_rate), Err(Error::Muxer(_))));
    // Valid parameters are accepted afterwards.
    m.add_video_stream(&CodecParams::default()).unwrap();
    m.add_audio_stream(&AudioParams::default()).unwrap();
}

#[test]
fn any_sink_dispatch_accounts_and_finalizes() {
    let mut sink = create_output(Output::file("d.mkv".into(), Container::Matroska)).unwrap();
    sink.init_with_codec(Some(&CodecParams::default())).unwrap();
    sink.write(&Packet::new(vec![0u8; 5], 0, 0, true)).unwrap();
    sink.write(&Packet::new(vec![0u8; 7], 1, 1, false)).unwrap();
    assert_eq!(sink.bytes_written(), 12);
    sink.finish().unwrap();
    assert_eq!(sink.bytes_written(), 12);
    match &sink {
        AnySink::File(f) => {
            assert!(!f.initialized);
            assert!(f.ledger.ordered);
        },
        _ => panic!("expected the file sink"),
    }

    // The dispatch layer carries the wire sinks' failures through.
    let mut bad = create_output(Output::rtmp("http://nope".into())).unwrap();
    assert!(matches!(bad.init_with_codec(None), Err(Error::Rtmp(_))));
    assert!(bad.write(&Packet::new(vec![1], 0, 0, true)).is_err());
    assert_eq!(bad.bytes_written(), 0);

    // A fan-out reports the largest destination count.
    let mut multi = create_output(Output::multiple(vec![
        Output::Null,
        Output::rtmp("bad-url".into()),
    ]))
    .unwrap();
    multi.init_with_codec(None).unwrap();
    multi.write(&Packet::new(vec![0u8; 9], 0, 0, true)).unwrap();
    assert_eq!(multi.bytes_written(), 9);
}
