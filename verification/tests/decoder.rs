use nvidia_video_codec::cuvid::decoder::{
    admits, choose_output_format, decline_reason, macroblock_count, minimum_surfaces, offers, packet_flags,
    parser_params, span, DeclineReason, DecodeCaps, DecoderCreateInfo, DecoderHandle, DecoderPhase, DecoderReconfigureInfo, DecoderState,
    DeinterlaceMode, DisplayArea, Retire, SequenceAction, VideoFormat,
    ADDITIONAL_DECODE_SURFACES,
};
use nvidia_video_codec::cuvid::gate::FlightGate;
use nvidia_video_codec::cuvid::{Codec, VideoChromaFormat, VideoSurfaceFormat};

fn format_1080p() -> VideoFormat {
    VideoFormat {
        codec: Codec::H264,
        chroma_format: VideoChromaFormat::YUV420,
        progressive_sequence: true,
        bit_depth_luma_minus8: 0,
        bit_depth_chroma_minus8: 0,
        min_num_decode_surfaces: 4,
        coded_width: 1920,
        coded_height: 1088,
        display_area: DisplayArea { left: 0, top: 0, right: 1920, bottom: 1080 },
    }
}

fn caps_4k() -> DecodeCaps {
    DecodeCaps {
        supported: true,
        max_width: 4096,
        max_height: 4096,
        max_mb_count: 65536,
        output_format_mask: 0b0011,
    }
}

fn default_state() -> DecoderState {
    DecoderState::new(false, (0, 0), None, None, Codec::H264)
}

fn created_state(decoder: DecoderHandle) -> DecoderState {
    let mut state = default_state();
    let mut gate = FlightGate::new(0);
    let plan = state.negotiate(&mut gate, &format_1080p(), Some(caps_4k()));
    assert!(matches!(plan.action, SequenceAction::Recreate(_)));
    assert_eq!(gate.bound(), plan.output_surfaces);
    assert_eq!(state.retire(&gate), Retire::Nothing);
    assert_eq!(state.created(Some(decoder), true), 7);
    state
}

#[test]
fn default_surface_request_pads_the_engine_minimum() {
    let mut state = default_state();
    let plan = state.negotiate(&mut FlightGate::new(0), &format_1080p(), Some(caps_4k()));
    assert_eq!(ADDITIONAL_DECODE_SURFACES, 3);
    assert_eq!(plan.min_surfaces, 7);
    assert_eq!(plan.decode_surfaces, 7);
    assert_eq!(plan.output_surfaces, 3);
    match plan.action {
        SequenceAction::Recreate(info) => {
            assert_eq!(info.num_decode_surfaces, 7);
            assert_eq!(info.num_output_surfaces, 3);
        }
        other => panic!("expected a decoder to be created, got {:?}", other),
    }
    assert_eq!(state.created(Some(DecoderHandle(0x1000)), true), 7);
    assert_eq!(state.phase, DecoderPhase::Created { decoder: DecoderHandle(0x1000) });
    assert_eq!(state.current_output_surfaces, 3);
}

#[test]
fn first_sequence_describes_the_decoder_in_full() {
    let mut state = DecoderState::new(true, (0, 0), None, None, Codec::H264);
    let mut format = format_1080p();
    format.progressive_sequence = false;
    format.bit_depth_luma_minus8 = 2;
    let plan = state.negotiate(&mut FlightGate::new(0), &format, Some(caps_4k()));
    assert_eq!(
        plan.action,
        SequenceAction::Recreate(DecoderCreateInfo {
            codec: Codec::H264,
            chroma_format: VideoChromaFormat::YUV420,
            output_format: VideoSurfaceFormat::NV12,
            bit_depth_minus8: 2,
            deinterlace: DeinterlaceMode::Adaptive,
            num_decode_surfaces: 7,
            num_output_surfaces: 3,
            width: 1920,
            height: 1088,
            max_width: 1920,
            max_height: 1088,
            target_width: 1920,
            target_height: 1080,
            intra_decode_only: true,
            display_area: None,
        })
    );
    assert_eq!(state.phase, DecoderPhase::Recreating { retiring: None });
    assert_eq!(state.bpp, 2);
    assert_eq!(state.bit_depth_minus8, 2);
    assert_eq!(state.out_size, (1920, 1080));
    assert_eq!(state.coded_size, (1920, 1088));
    assert_eq!(state.output_format, VideoSurfaceFormat::NV12);
}

#[test]
fn requested_decode_surfaces_win_when_larger() {
    let mut state = DecoderState::new(false, (0, 0), Some(20), Some(0), Codec::H264);
    let plan = state.negotiate(&mut FlightGate::new(0), &format_1080p(), Some(caps_4k()));
    assert_eq!(plan.min_surfaces, 7);
    assert_eq!(plan.decode_surfaces, 20);
    assert_eq!(plan.output_surfaces, 20);

    let mut state = DecoderState::new(false, (0, 0), Some(2), Some(5), Codec::H264);
    let plan = state.negotiate(&mut FlightGate::new(0), &format_1080p(), Some(caps_4k()));
    assert_eq!(plan.decode_surfaces, 7);
    assert_eq!(plan.output_surfaces, 5);
}

#[test]
fn minimum_of_the_largest_report_does_not_overflow() {
    let mut format = format_1080p();
    format.min_num_decode_surfaces = 255;
    assert_eq!(minimum_surfaces(&format), 258);
    format.min_num_decode_surfaces = 0;
    assert_eq!(minimum_surfaces(&format), 3);
}

#[test]
fn failed_capability_query_declines_and_changes_nothing() {
    let mut state = default_state();
    let before = state;
    let plan = state.negotiate(&mut FlightGate::new(0), &format_1080p(), None);
    assert_eq!(plan.action, SequenceAction::Decline(DeclineReason::QueryFailed));
    assert_eq!(plan.min_surfaces, 7);
    assert_eq!(state, before);
}

#[test]
fn device_limits_decline() {
    let format = format_1080p();
    assert_eq!(macroblock_count(&format), 120 * 68);
    let mut caps = caps_4k();
    caps.supported = false;
    caps.max_width = 0;
    assert!(!admits(&format, &caps));
    assert_eq!(decline_reason(&format, &caps), Some(DeclineReason::Unsupported));
    let mut caps = caps_4k();
    caps.max_width = 1919;
    caps.max_mb_count = 0;
    assert!(!admits(&format, &caps));
    assert_eq!(decline_reason(&format, &caps), Some(DeclineReason::ResolutionTooLarge));
    let mut caps = caps_4k();
    caps.max_height = 1087;
    assert!(!admits(&format, &caps));
    assert_eq!(decline_reason(&format, &caps), Some(DeclineReason::ResolutionTooLarge));
    let mut caps = caps_4k();
    caps.max_mb_count = 120 * 68 - 1;
    assert!(!admits(&format, &caps));
    assert_eq!(decline_reason(&format, &caps), Some(DeclineReason::TooManyMacroblocks));
    caps.max_mb_count = 120 * 68;
    assert!(admits(&format, &caps));
    assert_eq!(decline_reason(&format, &caps), None);

    let mut state = created_state(DecoderHandle(1));
    let before = state;
    caps.max_mb_count = 1;
    let plan = state.negotiate(&mut FlightGate::new(0), &format, Some(caps));
    assert_eq!(plan.action, SequenceAction::Decline(DeclineReason::TooManyMacroblocks));
    assert_eq!(plan.output_surfaces, 3);
    assert_eq!(state, before);
}

#[test]
fn macroblock_count_of_huge_pictures_does_not_overflow() {
    let mut format = format_1080p();
    format.coded_width = u32::MAX;
    format.coded_height = u32::MAX;
    let caps = DecodeCaps {
        supported: true,
        max_width: u32::MAX,
        max_height: u32::MAX,
        max_mb_count: u32::MAX,
        output_format_mask: 1,
    };
    assert!(!admits(&format, &caps));
    assert_eq!(macroblock_count(&format), 0x0fff_ffff * 0x0fff_ffff);
}

#[test]
fn missing_nv12_output_reports_zero_surfaces() {
    let mut state = default_state();
    let mut caps = caps_4k();
    caps.output_format_mask = 0b1110;
    assert!(!offers(&caps, VideoSurfaceFormat::NV12));
    assert!(offers(&caps, VideoSurfaceFormat::P016));
    assert!(offers(&caps, VideoSurfaceFormat::YUV444));
    assert!(offers(&caps, VideoSurfaceFormat::YUV444_16));
    let mut format = format_1080p();
    format.bit_depth_luma_minus8 = 2;
    format.chroma_format = VideoChromaFormat::YUV444;
    let plan = state.negotiate(&mut FlightGate::new(0), &format, Some(caps));
    assert_eq!(plan.action, SequenceAction::Unsupported);
    assert_eq!(state.phase, DecoderPhase::Uninitialized);
    assert_eq!(state.chroma_format, VideoChromaFormat::YUV444);
    assert_eq!(state.bit_depth_minus8, 2);
    assert_eq!(state.bpp, 2);
    assert_eq!(state.out_size, (0, 0));
    assert_eq!(state.current_output_surfaces, 0);
}

#[test]
fn resolution_change_reconfigures_and_keeps_the_decoder() {
    let decoder = DecoderHandle(0xdec0);
    let mut state = created_state(decoder);
    let mut format = format_1080p();
    format.coded_width = 1280;
    format.coded_height = 720;
    format.display_area = DisplayArea { left: 0, top: 0, right: 1280, bottom: 720 };
    format.min_num_decode_surfaces = 6;
    let plan = state.negotiate(&mut FlightGate::new(0), &format, Some(caps_4k()));
    assert_eq!(
        plan.action,
        SequenceAction::Reconfigure(DecoderReconfigureInfo {
            width: 1280,
            height: 720,
            target_width: 1280,
            target_height: 720,
            num_decode_surfaces: 9,
            display_area: None,
        })
    );
    assert_eq!(state.phase, DecoderPhase::Reconfiguring { decoder });
    assert_eq!(state.reconfigured(true, true), 9);
    assert_eq!(state.phase, DecoderPhase::Created { decoder });
    assert_eq!(state.current_decoder(), Some(decoder));
    assert_eq!(state.coded_size, (1280, 720));
}

#[test]
fn refused_reconfiguration_reports_the_minimum_and_keeps_the_decoder() {
    let decoder = DecoderHandle(3);
    let mut state = DecoderState::new(false, (0, 0), Some(12), None, Codec::H264);
    state.negotiate(&mut FlightGate::new(0), &format_1080p(), Some(caps_4k()));
    assert_eq!(state.created(Some(decoder), true), 12);
    let mut format = format_1080p();
    format.coded_height = 544;
    let plan = state.negotiate(&mut FlightGate::new(0), &format, Some(caps_4k()));
    assert!(matches!(plan.action, SequenceAction::Reconfigure(_)));
    assert_eq!(state.reconfigured(false, true), 7);
    assert_eq!(state.current_decoder(), Some(decoder));

    format.coded_height = 272;
    state.negotiate(&mut FlightGate::new(0), &format, Some(caps_4k()));
    assert_eq!(state.reconfigured(true, false), 7);
    assert_eq!(state.phase, DecoderPhase::Created { decoder });
}

#[test]
fn unchanged_stream_keeps_the_decoder_untouched() {
    let decoder = DecoderHandle(9);
    let mut state = created_state(decoder);
    let mut format = format_1080p();
    format.display_area = DisplayArea { left: 8, top: 8, right: 1912, bottom: 1072 };
    let plan = state.negotiate(&mut FlightGate::new(0), &format, Some(caps_4k()));
    assert_eq!(plan.action, SequenceAction::Keep { crop_changed: true });
    assert_eq!(state.phase, DecoderPhase::Created { decoder });
    assert_eq!(state.reply(true), 7);
    assert_eq!(state.reply(false), 7);
    assert_eq!(state.out_size, (1904, 1064));
    assert_eq!(state.display_area, format.display_area);

    let plan = state.negotiate(&mut FlightGate::new(0), &format, Some(caps_4k()));
    assert_eq!(plan.action, SequenceAction::Keep { crop_changed: false });
    assert_eq!(plan.immediate_reply(), None);
    assert_eq!(state.phase, DecoderPhase::Created { decoder });
}

#[test]
fn output_format_follows_the_offer() {
    let mut caps = caps_4k();
    caps.output_format_mask = 0b1111;
    assert_eq!(
        choose_output_format(VideoChromaFormat::YUV420, 0, &caps),
        Some(VideoSurfaceFormat::NV12)
    );
    assert_eq!(
        choose_output_format(VideoChromaFormat::Monochrome, 2, &caps),
        Some(VideoSurfaceFormat::P016)
    );
    assert_eq!(
        choose_output_format(VideoChromaFormat::YUV444, 0, &caps),
        Some(VideoSurfaceFormat::YUV444)
    );
    assert_eq!(
        choose_output_format(VideoChromaFormat::YUV444, 4, &caps),
        Some(VideoSurfaceFormat::YUV444_16)
    );
    assert_eq!(
        choose_output_format(VideoChromaFormat::YUV422, 2, &caps),
        Some(VideoSurfaceFormat::NV12)
    );
    caps.output_format_mask = 0b0011;
    assert_eq!(
        choose_output_format(VideoChromaFormat::YUV444, 4, &caps),
        Some(VideoSurfaceFormat::NV12)
    );
    caps.output_format_mask = 0b0110;
    assert_eq!(
        choose_output_format(VideoChromaFormat::YUV420, 0, &caps),
        Some(VideoSurfaceFormat::P016)
    );
    caps.output_format_mask = 0b1100;
    assert_eq!(
        choose_output_format(VideoChromaFormat::YUV420, 2, &caps),
        Some(VideoSurfaceFormat::YUV444)
    );
    caps.output_format_mask = 0b1000;
    assert_eq!(
        choose_output_format(VideoChromaFormat::YUV420, 0, &caps),
        Some(VideoSurfaceFormat::YUV444_16)
    );
    caps.output_format_mask = 0xfff0;
    assert_eq!(choose_output_format(VideoChromaFormat::YUV420, 0, &caps), None);
}

#[test]
fn bit_depth_change_recreates_only_once_no_frame_is_mapped() {
    let old = DecoderHandle(0xaaaa);
    let mut state = created_state(old);
    let mut gate = FlightGate::new(3);
    assert!(gate.try_acquire());
    assert!(gate.try_acquire());

    let mut format = format_1080p();
    format.bit_depth_luma_minus8 = 2;
    let plan = state.negotiate(&mut gate, &format, Some(caps_4k()));
    assert_eq!(gate.count(), 2);
    assert_eq!(gate.bound(), 3);
    assert!(matches!(plan.action, SequenceAction::Recreate(_)));
    assert_eq!(state.phase, DecoderPhase::Recreating { retiring: Some(old) });

    assert_eq!(state.retire(&gate), Retire::Wait);
    assert_eq!(state.current_decoder(), Some(old));
    gate.release();
    assert_eq!(state.retire(&gate), Retire::Wait);
    gate.release();
    assert_eq!(state.retire(&gate), Retire::Destroy(old));
    assert_eq!(state.current_decoder(), None);
    assert_eq!(state.retire(&gate), Retire::Nothing);

    let new = DecoderHandle(0xbbbb);
    assert_eq!(state.created(Some(new), true), 7);
    assert_eq!(state.phase, DecoderPhase::Created { decoder: new });
    assert_eq!(state.bpp, 2);
}

#[test]
fn chroma_change_recreates() {
    let old = DecoderHandle(1);
    let mut state = created_state(old);
    let mut format = format_1080p();
    format.chroma_format = VideoChromaFormat::YUV444;
    let plan = state.negotiate(&mut FlightGate::new(0), &format, Some(caps_4k()));
    match plan.action {
        SequenceAction::Recreate(info) => {
            assert_eq!(info.chroma_format, VideoChromaFormat::YUV444)
        }
        other => panic!("expected a recreation, got {:?}", other),
    }
    assert_eq!(state.phase, DecoderPhase::Recreating { retiring: Some(old) });
}

#[test]
fn failed_creation_leaves_no_decoder_and_reports_the_minimum() {
    let mut state = DecoderState::new(false, (0, 0), Some(16), None, Codec::HEVC);
    state.negotiate(&mut FlightGate::new(0), &format_1080p(), Some(caps_4k()));
    assert_eq!(state.created(None, true), 7);
    assert_eq!(state.phase, DecoderPhase::Uninitialized);

    state.negotiate(&mut FlightGate::new(0), &format_1080p(), Some(caps_4k()));
    assert_eq!(state.created(Some(DecoderHandle(5)), false), 7);
    assert_eq!(state.phase, DecoderPhase::Created { decoder: DecoderHandle(5) });
}

#[test]
fn abandoned_action_keeps_what_existed() {
    let decoder = DecoderHandle(77);
    let mut state = created_state(decoder);
    let mut format = format_1080p();
    format.bit_depth_luma_minus8 = 4;
    state.negotiate(&mut FlightGate::new(0), &format, Some(caps_4k()));
    assert_eq!(state.abandon(), 7);
    assert_eq!(state.phase, DecoderPhase::Created { decoder });

    let mut fresh = default_state();
    fresh.negotiate(&mut FlightGate::new(0), &format, Some(caps_4k()));
    assert_eq!(fresh.abandon(), 7);
    assert_eq!(fresh.phase, DecoderPhase::Uninitialized);
}

#[test]
fn requested_output_size_scales_and_names_the_display_area() {
    let mut state = DecoderState::new(false, (640, 360), None, None, Codec::H264);
    let format = format_1080p();
    let plan = state.negotiate(&mut FlightGate::new(0), &format, Some(caps_4k()));
    match plan.action {
        SequenceAction::Recreate(info) => {
            assert_eq!(info.target_width, 640);
            assert_eq!(info.target_height, 360);
            assert_eq!(info.width, 1920);
            assert_eq!(info.height, 1088);
            assert_eq!(info.display_area, Some(format.display_area));
        }
        other => panic!("expected a decoder to be created, got {:?}", other),
    }
    assert_eq!(state.out_size, (640, 360));
    assert_eq!(state.coded_size, (640, 360));

    state.created(Some(DecoderHandle(1)), true);
    let plan = state.negotiate(&mut FlightGate::new(0), &format, Some(caps_4k()));
    assert_eq!(
        plan.action,
        SequenceAction::Reconfigure(DecoderReconfigureInfo {
            width: 1920,
            height: 1088,
            target_width: 640,
            target_height: 360,
            num_decode_surfaces: 7,
            display_area: Some(format.display_area),
        })
    );
}

#[test]
fn one_sided_output_size_is_no_request() {
    let mut state = DecoderState::new(false, (640, 0), None, None, Codec::H264);
    state.negotiate(&mut FlightGate::new(0), &format_1080p(), Some(caps_4k()));
    assert_eq!(state.out_size, (1920, 1080));
}

#[test]
fn teardown_waits_for_mapped_frames() {
    let decoder = DecoderHandle(4);
    let mut state = created_state(decoder);
    let mut gate = FlightGate::new(3);
    assert!(gate.try_acquire());
    assert_eq!(state.teardown(&gate), Retire::Wait);
    assert_eq!(state.current_decoder(), Some(decoder));
    gate.release();
    assert_eq!(state.teardown(&gate), Retire::Destroy(decoder));
    assert_eq!(state.phase, DecoderPhase::Uninitialized);
    assert_eq!(state.teardown(&gate), Retire::Nothing);
}

#[test]
fn span_measures_and_wraps() {
    assert_eq!(span(0, 1920), 1920);
    assert_eq!(span(-8, 8), 16);
    assert_eq!(span(i32::MIN, i32::MAX), u32::MAX);
    assert_eq!(span(5, 5), 0);
    assert_eq!(span(1, 0), u32::MAX);
    assert_eq!(span(i32::MAX, i32::MIN), 1);
}

#[test]
fn parser_is_described_as_asked() {
    let params = parser_params(Codec::HEVC, None, true);
    assert_eq!(params.codec, Codec::HEVC);
    assert_eq!(params.max_num_decode_surfaces, 1);
    assert_eq!(params.clock_rate, 10_000_000);
    assert_eq!(params.error_threshold, 100);
    assert_eq!(params.max_display_delay, 0);
    let params = parser_params(Codec::H264, Some(9), false);
    assert_eq!(params.max_num_decode_surfaces, 9);
    assert_eq!(params.max_display_delay, 1);
    assert_eq!(default_state().parser_surfaces(), 1);
}

#[test]
fn packets_are_flagged() {
    assert_eq!(packet_flags(false), 0x02);
    assert_eq!(packet_flags(true), 0x11);
}

#[test]
fn negotiation_sizes_the_gate_only_when_it_proceeds() {
    let mut state = DecoderState::new(false, (0, 0), None, Some(0), Codec::H264);
    let mut gate = FlightGate::new(5);
    assert!(gate.try_acquire());

    let plan = state.negotiate(&mut gate, &format_1080p(), None);
    assert_eq!(plan.immediate_reply(), Some(7));
    assert_eq!((gate.count(), gate.bound()), (1, 5));

    let mut caps = caps_4k();
    caps.output_format_mask = 0;
    let plan = state.negotiate(&mut gate, &format_1080p(), Some(caps));
    assert_eq!(plan.immediate_reply(), Some(0));
    assert_eq!((gate.count(), gate.bound()), (1, 5));

    let plan = state.negotiate(&mut gate, &format_1080p(), Some(caps_4k()));
    assert_eq!(plan.immediate_reply(), None);
    assert_eq!(plan.output_surfaces, 7);
    assert_eq!((gate.count(), gate.bound()), (1, 7));
    assert_eq!(state.current_output_surfaces, 7);
}
