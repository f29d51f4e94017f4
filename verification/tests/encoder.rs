use std::collections::VecDeque;

use nvidia_video_codec::cuvid::channel::{Delivery, RecvFailure};
use nvidia_video_codec::cuvid::encoder::{
    codec_h264, codec_hevc, is_keyframe, negotiate_session, nv12_rows, offers_guid,
    preset_lossless_default, profile_h264_high, profile_h264_main, profile_hevc_main,
    select_codec, select_input_format, select_profile, EncodeQueue, EncodeStatus, EndError, Guid,
    NegotiationError, PendingQueue, Settled, Submission, SubmitError,
    NV_ENC_BUFFER_FORMAT_NV12,
};
use nvidia_video_codec::cuvid::pool::ResourcePool;
use nvidia_video_codec::cuvid::Codec;

fn indices<R>(batch: &VecDeque<Submission<R>>) -> Vec<usize> {
    batch.iter().map(|s| s.permit.index()).collect()
}

#[test]
fn four_accepted_submissions_reach_retrieval() {
    let mut pool = ResourcePool::with_capacity(4);
    let mut queue: EncodeQueue<u32> = EncodeQueue::new(4);
    for k in 0..4u32 {
        let permit = pool.get().unwrap();
        let outcome = queue.submitted(Submission { permit, resource: k }, EncodeStatus::Success);
        assert!(matches!(outcome, Ok(true)));
    }
    assert_eq!(queue.pending_len(), 0);
    assert!(pool.get().is_none());
    let mut retrieved = 0;
    while let Ok(submission) = queue.output().recv_timeout(1_000) {
        assert_eq!(submission.permit.index(), retrieved);
        assert_eq!(submission.resource, retrieved as u32);
        pool.put(submission.permit);
        retrieved += 1;
    }
    assert_eq!(retrieved, 4);
    assert_eq!(pool.available(), 4);
}

#[test]
fn deferred_submission_is_flushed_with_the_next_success_in_order() {
    let mut pool = ResourcePool::with_capacity(4);
    let mut queue: EncodeQueue<&str> = EncodeQueue::new(4);
    let first = pool.get().unwrap();
    let second = pool.get().unwrap();
    let outcome = queue.submitted(
        Submission { permit: first, resource: "first" },
        EncodeStatus::NeedMoreInput,
    );
    assert!(matches!(outcome, Ok(false)));
    assert_eq!(queue.pending_len(), 1);
    assert_eq!(queue.output().recv_timeout(1_000).unwrap_err(), RecvFailure::Timeout);
    let outcome = queue.submitted(
        Submission { permit: second, resource: "second" },
        EncodeStatus::Success,
    );
    assert!(matches!(outcome, Ok(true)));
    assert_eq!(queue.pending_len(), 0);
    let a = queue.retrieve().unwrap();
    let b = queue.retrieve().unwrap();
    assert_eq!((a.permit.index(), a.resource), (first.index(), "first"));
    assert_eq!((b.permit.index(), b.resource), (second.index(), "second"));
    assert_eq!(queue.output().recv_timeout(1_000).unwrap_err(), RecvFailure::Timeout);
}

#[test]
fn refused_submission_comes_back_and_nothing_is_flushed() {
    let mut pool = ResourcePool::with_capacity(3);
    let mut queue: EncodeQueue<u8> = EncodeQueue::new(3);
    let held = pool.get().unwrap();
    assert!(matches!(
        queue.submitted(Submission { permit: held, resource: 1 }, EncodeStatus::NeedMoreInput),
        Ok(false)
    ));
    let refused = pool.get().unwrap();
    match queue.submitted(Submission { permit: refused, resource: 2 }, EncodeStatus::Failed(8)) {
        Err(SubmitError::Engine { status, submission }) => {
            assert_eq!(status, 8);
            assert_eq!(submission.permit.index(), refused.index());
            assert_eq!(submission.resource, 2);
            pool.put(submission.permit);
        }
        other => panic!("expected the engine's refusal, got {:?}", other),
    }
    assert_eq!(queue.pending_len(), 1);
    assert_eq!(queue.output().recv_timeout(1_000).unwrap_err(), RecvFailure::Timeout);
    assert_eq!(pool.available(), 2);
}

#[test]
fn end_of_stream_flushes_pending_and_closes() {
    let mut pool = ResourcePool::with_capacity(3);
    let mut queue: EncodeQueue<u8> = EncodeQueue::new(3);
    for k in 0..2u8 {
        let permit = pool.get().unwrap();
        assert!(matches!(
            queue.submitted(Submission { permit, resource: k }, EncodeStatus::NeedMoreInput),
            Ok(false)
        ));
    }
    assert!(matches!(queue.end_of_stream(20), Err(EndError::Engine(20))));
    assert!(queue.is_accepting());
    assert_eq!(queue.pending_len(), 2);
    assert!(matches!(queue.end_of_stream(17), Err(EndError::Engine(17))));
    assert!(queue.is_accepting());

    assert!(queue.end_of_stream(0).is_ok());
    assert!(!queue.is_accepting());
    assert_eq!(queue.pending_len(), 0);
    assert_eq!(queue.retrieve().unwrap().resource, 0);
    assert_eq!(queue.retrieve().unwrap().resource, 1);
    assert!(queue.retrieve().is_none());

    assert!(queue.end_of_stream(0).is_ok());
    assert!(queue.end_of_stream(20).is_ok());
    assert!(!queue.is_accepting());
    assert!(queue.retrieve().is_none());
}

#[test]
fn status_numbers_are_read() {
    assert_eq!(EncodeStatus::from_raw(0), EncodeStatus::Success);
    assert_eq!(EncodeStatus::from_raw(17), EncodeStatus::NeedMoreInput);
    assert_eq!(EncodeStatus::from_raw(1), EncodeStatus::Failed(1));
    assert_eq!(EncodeStatus::from_raw(18), EncodeStatus::Failed(18));
    assert_eq!(EncodeStatus::from_raw(u32::MAX), EncodeStatus::Failed(u32::MAX));
}

#[test]
fn pending_queue_settles_each_answer() {
    let mut pool = ResourcePool::with_capacity(8);
    let mut pending: PendingQueue<char> = PendingQueue::new();
    assert_eq!(pending.len(), 0);
    for resource in ['a', 'b', 'c'] {
        let permit = pool.get().unwrap();
        let settled = pending.settle(Submission { permit, resource }, EncodeStatus::NeedMoreInput);
        assert!(matches!(settled, Settled::Deferred));
    }
    assert_eq!(pending.len(), 3);
    let permit = pool.get().unwrap();
    match pending.settle(Submission { permit, resource: 'x' }, EncodeStatus::Failed(10)) {
        Settled::Failed { status, submission } => {
            assert_eq!(status, 10);
            assert_eq!(submission.resource, 'x');
            assert_eq!(submission.permit.index(), 3);
        }
        other => panic!("expected a failure, got {:?}", other),
    }
    assert_eq!(pending.len(), 3);
    let permit = pool.get().unwrap();
    match pending.settle(Submission { permit, resource: 'd' }, EncodeStatus::Success) {
        Settled::Flush(batch) => {
            assert_eq!(indices(&batch), vec![0, 1, 2, 4]);
            let resources: Vec<char> = batch.iter().map(|s| s.resource).collect();
            assert_eq!(resources, vec!['a', 'b', 'c', 'd']);
        }
        other => panic!("expected a flush, got {:?}", other),
    }
    assert_eq!(pending.len(), 0);
    let permit = pool.get().unwrap();
    match pending.settle(Submission { permit, resource: 'e' }, EncodeStatus::Success) {
        Settled::Flush(batch) => assert_eq!(indices(&batch), vec![5]),
        other => panic!("expected a flush, got {:?}", other),
    }
    let permit = pool.get().unwrap();
    pending.settle(Submission { permit, resource: 'f' }, EncodeStatus::NeedMoreInput);
    let drained = pending.drain();
    assert_eq!(indices(&drained), vec![6]);
    assert_eq!(pending.len(), 0);
    assert!(pending.drain().is_empty());
}

#[test]
fn closed_queue_hands_everything_back() {
    let mut channel: Delivery<u32> = Delivery::bounded(2);
    assert!(channel.accepts());
    assert_eq!(channel.send(1), Ok(()));
    channel.close();
    assert!(!channel.accepts());
    assert_eq!(channel.send(2), Err(2));
    let batch: VecDeque<u32> = VecDeque::from(vec![3, 4, 5]);
    assert_eq!(channel.send_all(batch), Err(VecDeque::from(vec![3, 4, 5])));
    assert_eq!(channel.send_all(VecDeque::new()), Ok(()));
    assert_eq!(channel.recv(), Some(1));
    assert_eq!(channel.recv(), None);
}

#[test]
fn open_queue_takes_a_batch_in_order() {
    let channel: Delivery<u32> = Delivery::unbounded();
    assert_eq!(channel.send_all(VecDeque::from(vec![7, 8, 9])), Ok(()));
    assert_eq!(channel.send(10), Ok(()));
    let other = channel.receiver().clone();
    assert_eq!(other.try_recv(), Ok(7));
    assert_eq!(channel.recv_timeout(1_000), Ok(8));
    assert_eq!(channel.pull(Some(1_000)), Some(9));
    assert_eq!(channel.pull(None), Some(10));
    assert_eq!(channel.pull(Some(1_000)), None);
    assert_eq!(channel.recv_timeout(0), Err(RecvFailure::Timeout));
}

#[test]
fn largest_capacity_is_accepted() {
    let channel: Delivery<u8> = Delivery::bounded(usize::MAX);
    assert_eq!(channel.send(1), Ok(()));
    assert_eq!(channel.recv(), Some(1));
    let rendezvous: Delivery<u8> = Delivery::with_buffer(Some(0));
    assert!(rendezvous.accepts());
    assert_eq!(rendezvous.recv_timeout(1_000), Err(RecvFailure::Timeout));
}

#[test]
fn identifiers_are_spelled_as_the_interface_does() {
    assert_eq!(
        codec_h264(),
        Guid {
            data1: 0x6bc82762,
            data2: 0x4e63,
            data3: 0x4ca4,
            data4: u64::from_be_bytes([0xaa, 0x85, 0x1e, 0x50, 0xf3, 0x21, 0xf6, 0xbf]),
        }
    );
    assert_eq!(
        codec_hevc(),
        Guid {
            data1: 0x790cdc88,
            data2: 0x4522,
            data3: 0x4d7b,
            data4: u64::from_be_bytes([0x94, 0x25, 0xbd, 0xa9, 0x97, 0x5f, 0x76, 0x3]),
        }
    );
    assert_eq!(
        preset_lossless_default(),
        Guid {
            data1: 0xd5bfb716,
            data2: 0xc604,
            data3: 0x44e7,
            data4: u64::from_be_bytes([0x9b, 0xb8, 0xde, 0xa5, 0x51, 0xf, 0xc3, 0xac]),
        }
    );
    assert_eq!(
        profile_h264_main(),
        Guid {
            data1: 0x60b5c1d4,
            data2: 0x67fe,
            data3: 0x4790,
            data4: u64::from_be_bytes([0x94, 0xd5, 0xc4, 0x72, 0x6d, 0x7b, 0x6e, 0x6d]),
        }
    );
    assert_eq!(
        profile_h264_high(),
        Guid {
            data1: 0xe7cbc309,
            data2: 0x4f7a,
            data3: 0x4b89,
            data4: u64::from_be_bytes([0xaf, 0x2a, 0xd5, 0x37, 0xc9, 0x2b, 0xe3, 0x10]),
        }
    );
    assert_eq!(
        profile_hevc_main(),
        Guid {
            data1: 0xb514c39a,
            data2: 0xb55b,
            data3: 0x40fa,
            data4: u64::from_be_bytes([0x87, 0x8f, 0xf1, 0x25, 0x3b, 0x4d, 0xfd, 0xec]),
        }
    );
}

#[test]
fn codec_is_selected_from_the_offer() {
    let both = vec![codec_h264(), codec_hevc()];
    let only_h264 = vec![profile_h264_main(), codec_h264()];
    assert!(offers_guid(&both, codec_hevc()));
    assert!(!offers_guid(&only_h264, codec_hevc()));
    assert!(!offers_guid(&Vec::new(), codec_hevc()));
    assert_eq!(select_codec(Codec::HEVC, &both), Ok(codec_hevc()));
    assert_eq!(select_codec(Codec::H264, &both), Ok(codec_h264()));
    assert_eq!(select_codec(Codec::H264Mvc, &only_h264), Ok(codec_h264()));
    assert_eq!(select_codec(Codec::H264Svc, &only_h264), Ok(codec_h264()));
    assert_eq!(select_codec(Codec::HEVC, &only_h264), Err(NegotiationError::Codec));
    assert_eq!(select_codec(Codec::VP9, &both), Err(NegotiationError::Codec));
    assert_eq!(select_codec(Codec::H264, &Vec::new()), Err(NegotiationError::Codec));
}

#[test]
fn profile_is_selected_from_the_offer() {
    let offered = vec![profile_h264_main(), profile_h264_high(), profile_hevc_main()];
    assert_eq!(select_profile(Codec::H264, &offered), Ok(profile_h264_high()));
    assert_eq!(select_profile(Codec::HEVC, &offered), Ok(profile_hevc_main()));
    assert_eq!(
        select_profile(Codec::H264, &vec![profile_h264_main()]),
        Err(NegotiationError::Profile)
    );
    assert_eq!(select_profile(Codec::AV1, &offered), Err(NegotiationError::Profile));
}

#[test]
fn input_format_must_be_nv12() {
    assert_eq!(NV_ENC_BUFFER_FORMAT_NV12, 1);
    assert_eq!(select_input_format(&vec![0x10, 1, 0x100]), Ok(1));
    assert_eq!(select_input_format(&vec![0x10, 0x100]), Err(NegotiationError::InputFormat));
    assert_eq!(select_input_format(&Vec::new()), Err(NegotiationError::InputFormat));
}

#[test]
fn negotiation_failures_have_their_numbers() {
    assert_eq!(NegotiationError::Codec.code(), 1001);
    assert_eq!(NegotiationError::Profile.code(), 1002);
    assert_eq!(NegotiationError::InputFormat.code(), 1003);
}

#[test]
fn session_is_negotiated_or_fails_at_the_first_gap() {
    let encoders = vec![codec_h264(), codec_hevc()];
    let profiles = vec![profile_h264_high()];
    let formats = vec![1u32];
    let session =
        negotiate_session(Codec::H264, &encoders, &profiles, &formats, (1280, 720), (30, 1)).unwrap();
    assert_eq!(session.encode_guid, codec_h264());
    assert_eq!(session.preset_guid, preset_lossless_default());
    assert_eq!(session.profile_guid, profile_h264_high());
    assert_eq!((session.encode_width, session.encode_height), (1280, 720));
    assert_eq!((session.frame_rate_num, session.frame_rate_den), (30, 1));
    assert_eq!(session.buffer_format, 1);
    assert!(session.enable_ptd);

    let none: Vec<Guid> = Vec::new();
    assert_eq!(
        negotiate_session(Codec::H264, &none, &none, &Vec::new(), (1, 1), (1, 1)),
        Err(NegotiationError::Codec)
    );
    assert_eq!(
        negotiate_session(Codec::HEVC, &encoders, &profiles, &Vec::new(), (1, 1), (1, 1)),
        Err(NegotiationError::Profile)
    );
    assert_eq!(
        negotiate_session(Codec::H264, &encoders, &profiles, &vec![2], (1, 1), (1, 1)),
        Err(NegotiationError::InputFormat)
    );
    assert_eq!(
        negotiate_session(Codec::MPEG2, &encoders, &profiles, &formats, (1, 1), (1, 1)),
        Err(NegotiationError::Codec)
    );
}

#[test]
fn nv12_picture_has_half_again_as_many_rows() {
    assert_eq!(nv12_rows(1080), 1620);
    assert_eq!(nv12_rows(0), 0);
    assert_eq!(nv12_rows(1), 1);
    assert_eq!(nv12_rows(3), 4);
    assert_eq!(nv12_rows(u32::MAX), 6_442_450_942);
}

#[test]
fn only_idr_pictures_are_keyframes() {
    assert!(is_keyframe(3));
    assert!(!is_keyframe(0));
    assert!(!is_keyframe(1));
    assert!(!is_keyframe(2));
    assert!(!is_keyframe(4));
    assert!(!is_keyframe(0xff));
}

#[test]
fn longest_wait_is_cut_short_when_nothing_can_come() {
    let mut channel: Delivery<u8> = Delivery::unbounded();
    assert_eq!(channel.send(5), Ok(()));
    assert_eq!(channel.recv_timeout(u64::MAX), Ok(5));
    channel.close();
    assert_eq!(channel.recv_timeout(u64::MAX), Err(RecvFailure::Disconnected));
    assert_eq!(channel.pull(Some(u64::MAX)), None);
}

#[test]
fn open_queue_is_never_reported_disconnected() {
    let mut channel: Delivery<u8> = Delivery::bounded(1);
    let other = channel.receiver().clone();
    drop(other);
    assert!(channel.accepts());
    assert_eq!(channel.recv_timeout(1_000), Err(RecvFailure::Timeout));
    assert_eq!(channel.pull(Some(1_000)), None);
    assert_eq!(channel.send(9), Ok(()));
    assert_eq!(channel.recv(), Some(9));
    assert_eq!(channel.send(10), Ok(()));
    assert_eq!(channel.pull(None), Some(10));
    assert_eq!(channel.recv_timeout(1_000), Err(RecvFailure::Timeout));
    channel.close();
    assert_eq!(channel.recv_timeout(1_000), Err(RecvFailure::Disconnected));
    assert_eq!(channel.recv(), None);
}

#[test]
fn retrieval_yields_pictures_until_the_stream_has_ended() {
    let mut pool = ResourcePool::with_capacity(2);
    let mut queue: EncodeQueue<u8> = EncodeQueue::new(2);
    let permit = pool.get().unwrap();
    assert!(matches!(
        queue.submitted(Submission { permit, resource: 7 }, EncodeStatus::Success),
        Ok(true)
    ));
    assert!(queue.is_accepting());
    assert_eq!(queue.retrieve().map(|s| s.resource), Some(7));
    let permit = pool.get().unwrap();
    assert!(matches!(
        queue.submitted(Submission { permit, resource: 8 }, EncodeStatus::NeedMoreInput),
        Ok(false)
    ));
    assert!(queue.end_of_stream(0).is_ok());
    assert_eq!(queue.retrieve().map(|s| s.resource), Some(8));
    assert!(queue.retrieve().is_none());
}
