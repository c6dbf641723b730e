use nukeav1::export_settings::{
    audio_bitrate_bps, audio_codec_for_container, channel_labels, channel_summary, choose_sample_format,
    choose_sample_rate, codec_for_file_type, color_space_codes, container_extension, container_movflags, cpu_used,
    encoder_frame_rate, encoder_level, encoder_profile, encoder_tier, fourcc, is_hdr, keyframe_interval, nvenc_b_ref_mode,
    nvenc_multipass, nvenc_preset, nvenc_rate_control, nvenc_tune, rate_plan, resolve_dimension, select_video_encoder,
    str_contains, switch_value, export_file_extension, output_path_c_string, ChannelLabel, ColorSpaceCodes, HardwareEncoders, RatePlan, VideoCodec,
    EXPORTER_CLASS, FILE_TYPE_AV1, FILE_TYPE_VP8, FILE_TYPE_VP9,
};
use nukeav1::plugin_info::{
    choose_decoder_format, choose_frame_format, clock_fields, exporter_entry, frame_duration_ticks, import_format,
    import_pixel_format, select_streams, startup_reply, video_depth, FrameChoice, FrameRequest, PixelFormat, StartupReply,
    StreamKind, FILE_TYPE_MKV, FILE_TYPE_MOV, FILE_TYPE_MP4, FILE_TYPE_WEBM,
};
use nukeav1::plugin_info::{check_video_codec, decoder_device_order, encoder_audio_enabled, DecoderDevice, OpenVerdict, StreamCodec};
use nukeav1::encoder_audio::AudioSchedule;
use nukeav1::export_settings::{RenderClock, RenderStep};
use nukeav1::timing::Rational;

const NONE: HardwareEncoders = HardwareEncoders { av1_nvenc: false, av1_amf: false, av1_qsv: false, vp9_nvenc: false, vp9_qsv: false };

#[test]
fn four_character_codes() {
    assert_eq!(fourcc(*b"NukA"), FILE_TYPE_AV1);
    assert_eq!(fourcc(*b"Nuk8"), FILE_TYPE_VP8);
    assert_eq!(fourcc(*b"Nuk9"), FILE_TYPE_VP9);
    assert_eq!(fourcc(*b"NukE"), EXPORTER_CLASS);
    assert_eq!(FILE_TYPE_AV1, u32::from_be_bytes(*b"NukA"));
    assert_eq!(FILE_TYPE_MKV, i32::from_be_bytes(*b"MKV "));
    assert_eq!(FILE_TYPE_WEBM, i32::from_be_bytes(*b"WEBM"));
    assert_eq!(FILE_TYPE_MP4, i32::from_be_bytes(*b"MP4 "));
    assert_eq!(FILE_TYPE_MOV, i32::from_be_bytes(*b"MOV "));
}

#[test]
fn codec_of_file_type() {
    assert_eq!(codec_for_file_type(FILE_TYPE_AV1), VideoCodec::Av1);
    assert_eq!(codec_for_file_type(FILE_TYPE_VP9), VideoCodec::Vp9);
    assert_eq!(codec_for_file_type(FILE_TYPE_VP8), VideoCodec::Vp8);
    assert_eq!(codec_for_file_type(0), VideoCodec::Vp8);
}

#[test]
fn encoder_selection() {
    let all = HardwareEncoders { av1_nvenc: true, av1_amf: true, av1_qsv: true, vp9_nvenc: true, vp9_qsv: true };
    assert_eq!(select_video_encoder(VideoCodec::Av1, 0, all), "av1_nvenc");
    assert_eq!(select_video_encoder(VideoCodec::Av1, 0, HardwareEncoders { av1_nvenc: false, ..all }), "av1_amf");
    assert_eq!(select_video_encoder(VideoCodec::Av1, 0, HardwareEncoders { av1_qsv: true, ..NONE }), "av1_qsv");
    assert_eq!(select_video_encoder(VideoCodec::Av1, 0, NONE), "libaom_av1");
    assert_eq!(select_video_encoder(VideoCodec::Av1, 1, all), "libaom_av1");
    assert_eq!(select_video_encoder(VideoCodec::Av1, 2, NONE), "av1_nvenc");
    assert_eq!(select_video_encoder(VideoCodec::Av1, 3, NONE), "av1_amf");
    assert_eq!(select_video_encoder(VideoCodec::Av1, 4, NONE), "av1_qsv");
    assert_eq!(select_video_encoder(VideoCodec::Av1, 9, all), "libaom_av1");
    assert_eq!(select_video_encoder(VideoCodec::Vp9, 0, all), "vp9_nvenc");
    assert_eq!(select_video_encoder(VideoCodec::Vp9, 0, HardwareEncoders { vp9_qsv: true, ..NONE }), "vp9_qsv");
    assert_eq!(select_video_encoder(VideoCodec::Vp9, 0, NONE), "libvpx-vp9");
    assert_eq!(select_video_encoder(VideoCodec::Vp9, 3, all), "libvpx-vp9");
    assert_eq!(select_video_encoder(VideoCodec::Vp9, 2, NONE), "vp9_nvenc");
    assert_eq!(select_video_encoder(VideoCodec::Vp9, 4, NONE), "vp9_qsv");
    assert_eq!(select_video_encoder(VideoCodec::Vp9, 7, NONE), "libaom_av1");
    assert_eq!(select_video_encoder(VideoCodec::Vp8, 2, all), "libvpx");
}

#[test]
fn audio_choices() {
    let rates: Vec<i32> = (-1..7).map(audio_bitrate_bps).collect();
    assert_eq!(rates, vec![128000, 96000, 128000, 160000, 192000, 256000, 320000, 128000]);
    assert_eq!(audio_codec_for_container(0), "opus");
    assert_eq!(audio_codec_for_container(1), "aac");
    assert_eq!(audio_codec_for_container(6), "aac");
}

#[test]
fn file_extensions() {
    assert_eq!(container_extension(0, FILE_TYPE_VP9), "mkv");
    assert_eq!(container_extension(2, FILE_TYPE_VP8), "mp4");
    assert_eq!(container_extension(5, FILE_TYPE_AV1), "mov");
    assert_eq!(container_extension(7, FILE_TYPE_AV1), "mp4");
    assert_eq!(container_extension(-1, FILE_TYPE_VP8), "webm");
    assert_eq!(container_extension(9, FILE_TYPE_VP9), "webm");
    assert_eq!(container_extension(9, 0), "mp4");
}

#[test]
fn muxer_flags() {
    assert_eq!(container_movflags(0), None);
    assert_eq!(container_movflags(1), Some("faststart"));
    assert_eq!(container_movflags(4), Some("faststart"));
    for c in [2, 3, 5, 6] {
        assert_eq!(container_movflags(c), Some("empty_moov+default_base_moof+frag_keyframe"));
    }
    assert_eq!(container_movflags(7), None);
}

#[test]
fn colour_descriptions() {
    assert_eq!(color_space_codes(0), ColorSpaceCodes { primaries: 1, transfer: 1, matrix: 1, bit_depth: 8 });
    assert_eq!(color_space_codes(1), ColorSpaceCodes { primaries: 9, transfer: 16, matrix: 9, bit_depth: 10 });
    assert_eq!(color_space_codes(2), ColorSpaceCodes { primaries: 9, transfer: 18, matrix: 9, bit_depth: 10 });
    assert_eq!(color_space_codes(3), color_space_codes(0));
    assert!(is_hdr(1) && is_hdr(2) && !is_hdr(0) && !is_hdr(3));
}

#[test]
fn channel_layouts() {
    assert_eq!(channel_labels(1), vec![ChannelLabel::FrontCenter]);
    assert_eq!(channel_labels(2), vec![ChannelLabel::FrontLeft, ChannelLabel::FrontRight]);
    assert_eq!(channel_labels(6), vec![ChannelLabel::FrontLeft, ChannelLabel::FrontRight, ChannelLabel::FrontCenter, ChannelLabel::LowFrequency, ChannelLabel::BackLeft, ChannelLabel::BackRight]);
    assert_eq!(channel_labels(3), vec![ChannelLabel::Discrete; 3]);
    assert_eq!(channel_labels(0), vec![]);
    assert_eq!(channel_summary(1), "Mono");
    assert_eq!(channel_summary(3), "5.1");
    assert_eq!(channel_summary(2), "Stereo");
    assert_eq!(channel_summary(6), "Stereo");
}

#[test]
fn frame_geometry_and_timing() {
    assert_eq!(resolve_dimension(-1, 1080), 1080);
    assert_eq!(resolve_dimension(0, 1080), 1080);
    assert_eq!(resolve_dimension(720, 1080), 720);
    assert_eq!(encoder_frame_rate(4233600000), 60);
    assert_eq!(encoder_frame_rate(10594627200), 23);
    assert_eq!(encoder_frame_rate(0), 30);
    assert_eq!(encoder_frame_rate(1), i32::MAX);
}

#[test]
fn audio_requests_catch_up_with_video() {
    let mut sched = AudioSchedule::new();
    // frame 1 at 29.97 fps and 48 kHz: 1602 samples expected
    let n = sched.due(1602);
    assert_eq!(n, 1602);
    sched.delivered(n);
    // the host failed to deliver for frame 2: nothing counted
    let n = sched.due(3203);
    assert_eq!(n, 1601);
    // frame 3 catches up in one request
    let n = sched.due(4805);
    assert_eq!(n, 3203);
    sched.delivered(n);
    assert_eq!(sched.requested, 4805);
    assert_eq!(sched.due(4805), 0);
}

#[test]
fn file_extension_when_the_setting_is_unreadable() {
    assert_eq!(export_file_extension(None, FILE_TYPE_VP9), "mkv");
    assert_eq!(export_file_extension(None, FILE_TYPE_AV1), "mkv");
    assert_eq!(export_file_extension(Some(0), FILE_TYPE_AV1), "mkv");
    assert_eq!(export_file_extension(Some(5), FILE_TYPE_AV1), "mov");
    assert_eq!(export_file_extension(Some(9), FILE_TYPE_VP8), "webm");
}

#[test]
fn output_paths_with_nul_are_refused() {
    assert_eq!(output_path_c_string("C:/out.mp4"), Ok(b"C:/out.mp4\0".to_vec()));
    assert_eq!(output_path_c_string("a\0b"), Err("Invalid path"));
    assert_eq!(output_path_c_string(""), Ok(vec![0u8]));
}

#[test]
fn only_av1_vp8_vp9_are_imported() {
    assert_eq!(check_video_codec(StreamCodec::Av1), OpenVerdict::Decode(VideoCodec::Av1));
    assert_eq!(check_video_codec(StreamCodec::Vp8), OpenVerdict::Decode(VideoCodec::Vp8));
    assert_eq!(check_video_codec(StreamCodec::Vp9), OpenVerdict::Decode(VideoCodec::Vp9));
    assert_eq!(check_video_codec(StreamCodec::Other), OpenVerdict::BadFile);
}

#[test]
fn rate_plan_doubles_only_what_it_uses() {
    // software encoders never double a rate
    let p = rate_plan("libsvtav1", 0, i64::MAX, i64::MAX);
    assert_eq!(p.bit_rate, Some(i64::MAX));
    assert_eq!(p.buffer_size, None);
    // NVIDIA constant QP sets no rate
    assert_eq!(rate_plan("av1_nvenc", 1, i64::MAX, i64::MAX).bit_rate, None);
}

#[test]
fn keyframe_distances() {
    assert_eq!(keyframe_interval(33, 30), 33);
    assert_eq!(keyframe_interval(2, 30), 60);
    assert_eq!(keyframe_interval(5, 24), 120);
    assert_eq!(keyframe_interval(6, 24), 6);
    assert_eq!(keyframe_interval(0, 30), 250);
    assert_eq!(keyframe_interval(-3, 30), 250);
}

#[test]
fn rate_control_plans() {
    assert!(str_contains("av1_nvenc", "nvenc"));
    assert!(!str_contains("libaom_av1", "nvenc"));
    assert!(str_contains("x", ""));
    let cbr = rate_plan("av1_nvenc", 0, 10_000_000, 12_000_000);
    assert_eq!(cbr, RatePlan { bit_rate: Some(10_000_000), max_rate: Some(10_000_000), buffer_size: Some(20_000_000), option: None });
    assert_eq!(rate_plan("av1_nvenc", 1, 1, 2).option, Some(("qp", "20")));
    let vbr = rate_plan("vp9_nvenc", 2, 10_000_000, 12_000_000);
    assert_eq!(vbr, RatePlan { bit_rate: Some(10_000_000), max_rate: Some(12_000_000), buffer_size: Some(24_000_000), option: None });
    let q = rate_plan("av1_nvenc", 3, 10, 12);
    assert_eq!(q, RatePlan { bit_rate: Some(10), max_rate: None, buffer_size: None, option: Some(("cq", "20")) });
    assert_eq!(rate_plan("av1_nvenc", 4, 10, 12), RatePlan { bit_rate: None, max_rate: None, buffer_size: None, option: None });
    // buffer size is cut to 32 bits
    assert_eq!(rate_plan("av1_nvenc", 0, 3_000_000_000, 0).buffer_size, Some((6_000_000_000i64) as i32));
    assert_eq!(rate_plan("libaom_av1", 2, 10, 12), RatePlan { bit_rate: Some(10), max_rate: Some(12), buffer_size: None, option: None });
    assert_eq!(rate_plan("libaom_av1", 0, 10, 12).max_rate, Some(10));
    assert_eq!(rate_plan("libaom_av1", 1, 10, 12).option, Some(("crf", "26")));
    assert_eq!(rate_plan("libvpx-vp9", 3, 10, 12).option, Some(("crf", "28")));
    assert_eq!(rate_plan("av1_qsv", 1, 10, 12).option, Some(("crf", "26")));
}

#[test]
fn encoder_option_tables() {
    assert_eq!(nvenc_rate_control(0), "cbr");
    assert_eq!(nvenc_rate_control(1), "constqp");
    assert_eq!(nvenc_rate_control(2), "vbr");
    assert_eq!(nvenc_rate_control(3), "vbr");
    assert_eq!(nvenc_rate_control(9), "cbr");
    assert_eq!((nvenc_multipass(0), nvenc_multipass(1), nvenc_multipass(2), nvenc_multipass(5)), ("disabled", "qres", "fullres", "qres"));
    assert_eq!((nvenc_b_ref_mode(0), nvenc_b_ref_mode(1), nvenc_b_ref_mode(2), nvenc_b_ref_mode(3)), ("disabled", "each", "middle", "disabled"));
    assert_eq!((switch_value(true), switch_value(false)), ("1", "0"));
    let presets: Vec<&str> = (-1..8).map(nvenc_preset).collect();
    assert_eq!(presets, vec!["p4", "p1", "p2", "p3", "p4", "p5", "p6", "p7", "p4"]);
    assert_eq!((nvenc_tune(0), nvenc_tune(1), nvenc_tune(2), nvenc_tune(3)), ("hq", "ll", "ull", "hq"));
    let speeds: Vec<Option<&str>> = (-1..8).map(|p| cpu_used("libaom_av1", p)).collect();
    assert_eq!(speeds, vec![Some("4"), Some("8"), Some("7"), Some("6"), Some("5"), Some("4"), Some("3"), Some("2"), Some("4")]);
    assert_eq!(cpu_used("libvpx-vp9", 0), Some("8"));
    assert_eq!(cpu_used("av1_nvenc", 0), None);
}

#[test]
fn profiles_levels_tiers() {
    assert_eq!(encoder_profile("libaom_av1", 0), Some("main"));
    assert_eq!(encoder_profile("av1_nvenc", 2), Some("professional"));
    assert_eq!(encoder_profile("av1_nvenc", 3), None);
    assert_eq!(encoder_profile("libvpx-vp9", 3), Some("3"));
    assert_eq!(encoder_profile("libvpx", 0), None);
    assert_eq!(encoder_profile("libaom_av1", -1), None);
    assert_eq!(encoder_level("av1_qsv", 3), Some("6.0"));
    assert_eq!(encoder_level("av1_qsv", 4), None);
    assert_eq!(encoder_level("libvpx-vp9", 0), None);
    assert_eq!(encoder_tier("libaom_av1", 1), Some("high"));
    assert_eq!(encoder_tier("libaom_av1", 2), None);
    assert_eq!(encoder_tier("vp9_qsv", 0), None);
}

#[test]
fn sample_rate_and_format() {
    assert_eq!(choose_sample_rate(44100, None), 44100);
    assert_eq!(choose_sample_rate(44100, Some(&[])), 44100);
    assert_eq!(choose_sample_rate(44100, Some(&[96000, 44100, 48000])), 44100);
    assert_eq!(choose_sample_rate(32000, Some(&[96000, 48000, 44100])), 48000);
    assert_eq!(choose_sample_rate(32000, Some(&[96000, 88200])), 96000);
    assert_eq!(choose_sample_format(None, 8, -1), 8);
    // a present but empty list yields its closing marker
    assert_eq!(choose_sample_format(Some(&[]), 8, -1), -1);
    assert_eq!(choose_sample_format(Some(&[1, 8, 3]), 8, -1), 8);
    assert_eq!(choose_sample_format(Some(&[1, 3]), 8, -1), 1);
}

#[test]
fn exporter_start_up() {
    let av1 = exporter_entry(0).unwrap();
    assert_eq!((av1.file_type, av1.class_id, av1.name, av1.extension), (FILE_TYPE_AV1, EXPORTER_CLASS, "AV1 (Nuke)", "mp4"));
    let vp8 = exporter_entry(1).unwrap();
    assert_eq!((vp8.file_type, vp8.name, vp8.extension), (FILE_TYPE_VP8, "VP8 (Nuke)", "webm"));
    let vp9 = exporter_entry(2).unwrap();
    assert_eq!((vp9.file_type, vp9.name, vp9.extension), (FILE_TYPE_VP9, "VP9 (Nuke)", "webm"));
    assert!(exporter_entry(3).is_none() && exporter_entry(-1).is_none());
    assert_eq!(startup_reply(0), StartupReply::Iterate);
    assert_eq!(startup_reply(1), StartupReply::Iterate);
    assert_eq!(startup_reply(2), StartupReply::Last);
    assert_eq!(startup_reply(3), StartupReply::NoMore);
}

#[test]
fn importer_formats() {
    let names: Vec<(i32, &str, &str)> = (0..4).map(|i| {
        let f = import_format(i).unwrap();
        (f.file_type, f.name, f.extension)
    }).collect();
    assert_eq!(names, vec![
        (FILE_TYPE_MKV, "Matroska Video (Nuke)", "mkv"),
        (FILE_TYPE_WEBM, "WebM Video (Nuke)", "webm"),
        (FILE_TYPE_MP4, "MPEG-4 Video (Nuke)", "mp4"),
        (FILE_TYPE_MOV, "QuickTime Movie (Nuke)", "mov"),
    ]);
    assert!(import_format(4).is_none());
    assert_eq!(import_pixel_format(0), Some(PixelFormat::Bgra8u));
    assert_eq!(import_pixel_format(1), Some(PixelFormat::Bgra16u));
    assert_eq!(import_pixel_format(2), Some(PixelFormat::Bgra32f));
    assert_eq!(import_pixel_format(3), None);
}

#[test]
fn frame_format_choice() {
    let req = |pixel_format, width, height| FrameRequest { pixel_format, width, height };
    assert_eq!(choose_frame_format(&[], 1920, 1080), FrameChoice { pixel_format: PixelFormat::Bgra8u, width: 1920, height: 1080 });
    let list = [req(PixelFormat::Bgra8u, 640, 360), req(PixelFormat::Bgra32f, 1280, 720), req(PixelFormat::Bgra32f, 10, 10)];
    assert_eq!(choose_frame_format(&list, 1920, 1080), FrameChoice { pixel_format: PixelFormat::Bgra32f, width: 1280, height: 720 });
    let list = [req(PixelFormat::Bgra8u, 640, 360), req(PixelFormat::Other, 1, 1), req(PixelFormat::Bgra8u, 320, 0)];
    assert_eq!(choose_frame_format(&list, 1920, 1080), FrameChoice { pixel_format: PixelFormat::Bgra8u, width: 1920, height: 1080 });
    let list = [req(PixelFormat::Other, 800, 600), req(PixelFormat::Bgra16u, 1, 1)];
    assert_eq!(choose_frame_format(&list, 1920, 1080), FrameChoice { pixel_format: PixelFormat::Bgra8u, width: 800, height: 600 });
}

#[test]
fn stream_information() {
    assert_eq!(frame_duration_ticks(Rational { num: 30000, den: 1001 }), 8475667200);
    assert_eq!(frame_duration_ticks(Rational { num: 25, den: 1 }), 10160640000);
    assert_eq!(frame_duration_ticks(Rational { num: 0, den: 1 }), 10584000000);
    assert_eq!(video_depth(10), 40);
    assert_eq!(video_depth(8), 32);
    let s = select_streams(&[StreamKind::Other, StreamKind::Audio, StreamKind::Video, StreamKind::Audio, StreamKind::Video]);
    assert_eq!((s.video, s.audio), (Some(2), Some(1)));
    let s = select_streams(&[StreamKind::Audio]);
    assert_eq!((s.video, s.audio), (None, Some(0)));
    assert_eq!(choose_decoder_format(&[false, true, true], true), Some(1));
    assert_eq!(choose_decoder_format(&[false, true], false), Some(0));
    assert_eq!(choose_decoder_format(&[false, false], true), Some(0));
    assert_eq!(choose_decoder_format(&[], true), None);
    assert_eq!(clock_fields(3725), (1, 2, 5));
    assert_eq!(clock_fields(59), (0, 0, 59));
}

#[test]
fn hardware_decoding_follows_the_host() {
    assert_eq!(decoder_device_order(true), vec![DecoderDevice::D3d11va, DecoderDevice::Cuda]);
    assert!(decoder_device_order(false).is_empty());
}

#[test]
fn no_container_means_no_audio() {
    assert!(encoder_audio_enabled(true, 0));
    assert!(encoder_audio_enabled(true, 1));
    assert!(!encoder_audio_enabled(true, 2));
    assert!(!encoder_audio_enabled(false, 0));
}

#[test]
fn render_loop_visits_frame_times_until_the_end() {
    let mut clock = RenderClock::new(100, 130, 10);
    let mut times = Vec::new();
    loop {
        match clock.next() {
            RenderStep::RenderAt(t) => {
                times.push(t);
                clock.frame_done(false);
            }
            RenderStep::Finish { aborted } => {
                assert!(!aborted);
                break;
            }
        }
    }
    assert_eq!(times, vec![100, 110, 120]);
    assert_eq!(clock.current_time, 130);
}

#[test]
fn render_loop_stops_when_cancelled() {
    let mut clock = RenderClock::new(0, 1000, 10);
    assert_eq!(clock.next(), RenderStep::RenderAt(0));
    clock.frame_done(false);
    assert_eq!(clock.next(), RenderStep::RenderAt(10));
    clock.frame_done(true);
    assert_eq!(clock.current_time, 10);
    assert_eq!(clock.next(), RenderStep::Finish { aborted: true });
    // an empty span renders nothing
    assert_eq!(RenderClock::new(5, 5, 10).next(), RenderStep::Finish { aborted: false });
}
