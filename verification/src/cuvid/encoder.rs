//! Encode coordination: negotiation of a session and the order in which
//! submitted pictures reach the consumer.
//!
//! The engine may hold a submitted picture back until it has seen later
//! ones, and says so by answering "need more input". Such a picture stays
//! pending. The next picture that the engine accepts releases it: all
//! pending pictures and the accepted one go to the retrieval queue in the
//! order in which they were submitted. The end of the stream releases what
//! is still pending and closes the queue.
use std::collections::VecDeque;
use vstd::prelude::*;

use super::channel::Delivery;
use super::codec::Codec;
use super::pool::Permit;

verus! {

/// Status with which the engine reports success.
pub const NV_ENC_SUCCESS: u32 = 0;

/// Status with which the engine reports that it holds a picture back.
pub const NV_ENC_ERR_NEED_MORE_INPUT: u32 = 17;

/// Picture type of an instantaneous decoder refresh picture.
pub const NV_ENC_PIC_TYPE_IDR: u32 = 3;

/// Input buffer format with one luma plane and one interleaved chroma plane.
pub const NV_ENC_BUFFER_FORMAT_NV12: u32 = 1;

/// First number of the range in which negotiation failures are reported.
pub const NEGOTIATION_ERROR_BASE: u32 = 999;

/// Version word of a structure of the encode interface: the interface
/// version in the low bits, the structure's own version from bit 16 on, and
/// the marker 7 in the top four bits.
pub open spec fn struct_version(api_version: u32, version: u32) -> u32 {
    api_version | (version << 16) | (0x7u32 << 28)
}

/// Version word of a structure of the encode interface.
#[allow(non_snake_case)]
pub fn NVENCAPI_STRUCT_VERSION(api_version: u32, version: u32) -> (word: u32)
    ensures
        word == struct_version(api_version, version),
{
    api_version | (version << 16) | (0x7u32 << 28)
}

/// A globally unique identifier as the encode interface spells it. The last
/// eight bytes are packed into `data4`, the first of them in the highest
/// place.
#[derive(Clone, Copy, Debug, PartialEq, Eq, Structural)]
pub struct Guid {
    pub data1: u32,
    pub data2: u16,
    pub data3: u16,
    pub data4: u64,
}

/// Identifier of the H.264 encoder.
pub open spec fn h264_codec_guid() -> Guid {
    Guid { data1: 0x6bc8_2762, data2: 0x4e63, data3: 0x4ca4, data4: 0xaa85_1e50_f321_f6bf }
}

/// Identifier of the HEVC encoder.
pub open spec fn hevc_codec_guid() -> Guid {
    Guid { data1: 0x790c_dc88, data2: 0x4522, data3: 0x4d7b, data4: 0x9425_bda9_975f_7603 }
}

/// Identifier of the H.264 high profile.
pub open spec fn h264_high_profile_guid() -> Guid {
    Guid { data1: 0xe7cb_c309, data2: 0x4f7a, data3: 0x4b89, data4: 0xaf2a_d537_c92b_e310 }
}

/// Identifier of the H.264 main profile.
pub open spec fn h264_main_profile_guid() -> Guid {
    Guid { data1: 0x60b5_c1d4, data2: 0x67fe, data3: 0x4790, data4: 0x94d5_c472_6d7b_6e6d }
}

/// Identifier of the HEVC main profile.
pub open spec fn hevc_main_profile_guid() -> Guid {
    Guid { data1: 0xb514_c39a, data2: 0xb55b, data3: 0x40fa, data4: 0x878f_f125_3b4d_fdec }
}

/// Identifier of the lossless default preset.
pub open spec fn lossless_default_preset_guid() -> Guid {
    Guid { data1: 0xd5bf_b716, data2: 0xc604, data3: 0x44e7, data4: 0x9bb8_dea5_510f_c3ac }
}

/// The encoder that is asked for to encode `codec`, if there is one.
pub open spec fn wanted_codec(codec: Codec) -> Option<Guid> {
    if codec == Codec::HEVC {
        Some(hevc_codec_guid())
    } else if codec.is_h264_family() {
        Some(h264_codec_guid())
    } else {
        None
    }
}

/// The profile that is asked for to encode `codec`, if there is one.
pub open spec fn wanted_profile(codec: Codec) -> Option<Guid> {
    if codec == Codec::HEVC {
        Some(hevc_main_profile_guid())
    } else if codec.is_h264_family() {
        Some(h264_high_profile_guid())
    } else {
        None
    }
}

/// Whether the encoder for `codec` is among `offered`.
pub open spec fn encoder_offered(codec: Codec, offered: Seq<Guid>) -> bool {
    match wanted_codec(codec) {
        Some(guid) => offered.contains(guid),
        None => false,
    }
}

/// Whether the profile for `codec` is among `offered`.
pub open spec fn profile_offered(codec: Codec, offered: Seq<Guid>) -> bool {
    match wanted_profile(codec) {
        Some(guid) => offered.contains(guid),
        None => false,
    }
}

/// The outcome of a negotiation on what the engine offers: the first of
/// encoder, profile and input format that is missing decides the error.
pub open spec fn negotiated(
    codec: Codec,
    encoders: Seq<Guid>,
    profiles: Seq<Guid>,
    input_formats: Seq<u32>,
    output_size: (u32, u32),
    framerate: (u32, u32),
) -> Result<SessionParams, NegotiationError> {
    if !encoder_offered(codec, encoders) {
        Err(NegotiationError::Codec)
    } else if !profile_offered(codec, profiles) {
        Err(NegotiationError::Profile)
    } else if !input_formats.contains(NV_ENC_BUFFER_FORMAT_NV12) {
        Err(NegotiationError::InputFormat)
    } else {
        Ok(
            session_for(
                wanted_codec(codec).unwrap(),
                wanted_profile(codec).unwrap(),
                NV_ENC_BUFFER_FORMAT_NV12,
                output_size,
                framerate,
            ),
        )
    }
}

/// Why a session could not be negotiated.
#[derive(Clone, Copy, Debug, PartialEq, Eq, Structural)]
pub enum NegotiationError {
    /// The engine offers no encoder for the codec.
    Codec,
    /// The engine offers the encoder without the profile asked for.
    Profile,
    /// The engine does not take NV12 input for the encoder.
    InputFormat,
}

impl NegotiationError {
    /// The number under which the failure is reported.
    pub open spec fn code_of(self) -> u32 {
        match self {
            NegotiationError::Codec => 1001,
            NegotiationError::Profile => 1002,
            NegotiationError::InputFormat => 1003,
        }
    }

    /// The number under which the failure is reported: 2, 3 or 4 above the
    /// base.
    pub fn code(self) -> (code: u32)
        ensures
            code == self.code_of(),
            code == NEGOTIATION_ERROR_BASE + match self {
                NegotiationError::Codec => 2int,
                NegotiationError::Profile => 3int,
                NegotiationError::InputFormat => 4int,
            },
    {
        match self {
            NegotiationError::Codec => NEGOTIATION_ERROR_BASE + 2,
            NegotiationError::Profile => NEGOTIATION_ERROR_BASE + 3,
            NegotiationError::InputFormat => NEGOTIATION_ERROR_BASE + 4,
        }
    }
}

/// Identifier of the H.264 encoder.
pub fn codec_h264() -> (guid: Guid)
    ensures
        guid == h264_codec_guid(),
{
    Guid { data1: 0x6bc8_2762, data2: 0x4e63, data3: 0x4ca4, data4: 0xaa85_1e50_f321_f6bf }
}

/// Identifier of the HEVC encoder.
pub fn codec_hevc() -> (guid: Guid)
    ensures
        guid == hevc_codec_guid(),
{
    Guid { data1: 0x790c_dc88, data2: 0x4522, data3: 0x4d7b, data4: 0x9425_bda9_975f_7603 }
}

/// Identifier of the H.264 high profile.
pub fn profile_h264_high() -> (guid: Guid)
    ensures
        guid == h264_high_profile_guid(),
{
    Guid { data1: 0xe7cb_c309, data2: 0x4f7a, data3: 0x4b89, data4: 0xaf2a_d537_c92b_e310 }
}

/// Identifier of the H.264 main profile.
pub fn profile_h264_main() -> (guid: Guid)
    ensures
        guid == h264_main_profile_guid(),
{
    Guid { data1: 0x60b5_c1d4, data2: 0x67fe, data3: 0x4790, data4: 0x94d5_c472_6d7b_6e6d }
}

/// Identifier of the HEVC main profile.
pub fn profile_hevc_main() -> (guid: Guid)
    ensures
        guid == hevc_main_profile_guid(),
{
    Guid { data1: 0xb514_c39a, data2: 0xb55b, data3: 0x40fa, data4: 0x878f_f125_3b4d_fdec }
}

/// Identifier of the lossless default preset.
pub fn preset_lossless_default() -> (guid: Guid)
    ensures
        guid == lossless_default_preset_guid(),
{
    Guid { data1: 0xd5bf_b716, data2: 0xc604, data3: 0x44e7, data4: 0x9bb8_dea5_510f_c3ac }
}

/// Whether `wanted` is among `offered`.
pub fn offers_guid(offered: &Vec<Guid>, wanted: Guid) -> (found: bool)
    ensures
        found == offered@.contains(wanted),
{
    let mut i: usize = 0;
    while i < offered.len()
        invariant
            i <= offered@.len(),
            forall|j: int| 0 <= j < i ==> offered@[j] != wanted,
        decreases offered@.len() - i,
    {
        if offered[i] == wanted {
            return true;
        }
        i = i + 1;
    }
    false
}

/// Picks the encoder for `codec` from those the engine offers.
pub fn select_codec(codec: Codec, offered: &Vec<Guid>) -> (choice: Result<Guid, NegotiationError>)
    ensures
        choice matches Ok(guid) ==> wanted_codec(codec) == Some(guid) && offered@.contains(guid),
        choice matches Err(error) ==> error == NegotiationError::Codec,
        choice is Ok <==> encoder_offered(codec, offered@),
{
    let wanted = match codec {
        Codec::HEVC => codec_hevc(),
        Codec::H264 | Codec::H264Mvc | Codec::H264Svc => codec_h264(),
        _ => {
            return Err(NegotiationError::Codec);
        },
    };
    if offers_guid(offered, wanted) {
        Ok(wanted)
    } else {
        Err(NegotiationError::Codec)
    }
}

/// Picks the profile for `codec` from those the engine offers for its
/// encoder.
pub fn select_profile(codec: Codec, offered: &Vec<Guid>) -> (choice: Result<
    Guid,
    NegotiationError,
>)
    ensures
        choice matches Ok(guid) ==> wanted_profile(codec) == Some(guid) && offered@.contains(guid),
        choice matches Err(error) ==> error == NegotiationError::Profile,
        choice is Ok <==> profile_offered(codec, offered@),
{
    let wanted = match codec {
        Codec::HEVC => profile_hevc_main(),
        Codec::H264 | Codec::H264Mvc | Codec::H264Svc => profile_h264_high(),
        _ => {
            return Err(NegotiationError::Profile);
        },
    };
    if offers_guid(offered, wanted) {
        Ok(wanted)
    } else {
        Err(NegotiationError::Profile)
    }
}

/// Picks NV12 from the input formats that the engine takes.
pub fn select_input_format(offered: &Vec<u32>) -> (choice: Result<u32, NegotiationError>)
    ensures
        choice matches Ok(format) ==> format == NV_ENC_BUFFER_FORMAT_NV12,
        choice matches Err(error) ==> error == NegotiationError::InputFormat,
        choice is Ok <==> offered@.contains(NV_ENC_BUFFER_FORMAT_NV12),
{
    let mut i: usize = 0;
    while i < offered.len()
        invariant
            i <= offered@.len(),
            forall|j: int| 0 <= j < i ==> offered@[j] != NV_ENC_BUFFER_FORMAT_NV12,
        decreases offered@.len() - i,
    {
        if offered[i] == NV_ENC_BUFFER_FORMAT_NV12 {
            return Ok(NV_ENC_BUFFER_FORMAT_NV12);
        }
        i = i + 1;
    }
    Err(NegotiationError::InputFormat)
}

/// Everything the engine is told when a session is initialised.
#[derive(Clone, Copy, Debug, PartialEq, Eq, Structural)]
pub struct SessionParams {
    pub encode_guid: Guid,
    pub preset_guid: Guid,
    pub profile_guid: Guid,
    pub encode_width: u32,
    pub encode_height: u32,
    pub buffer_format: u32,
    pub frame_rate_num: u32,
    pub frame_rate_den: u32,
    /// The engine decides the type of each picture.
    pub enable_ptd: bool,
}

/// The session that is asked for with the negotiated identifiers.
pub open spec fn session_for(
    encode_guid: Guid,
    profile_guid: Guid,
    buffer_format: u32,
    output_size: (u32, u32),
    framerate: (u32, u32),
) -> SessionParams {
    SessionParams {
        encode_guid,
        preset_guid: lossless_default_preset_guid(),
        profile_guid,
        encode_width: output_size.0,
        encode_height: output_size.1,
        buffer_format,
        frame_rate_num: framerate.0,
        frame_rate_den: framerate.1,
        enable_ptd: true,
    }
}

/// Negotiates a session for `codec` from what the engine offers: its
/// encoders, the profiles and the input formats of the encoder for `codec`.
/// The first of the three that is missing decides the error.
pub fn negotiate_session(
    codec: Codec,
    encoders: &Vec<Guid>,
    profiles: &Vec<Guid>,
    input_formats: &Vec<u32>,
    output_size: (u32, u32),
    framerate: (u32, u32),
) -> (session: Result<SessionParams, NegotiationError>)
    ensures
        session == negotiated(
            codec,
            encoders@,
            profiles@,
            input_formats@,
            output_size,
            framerate,
        ),
{
    let encode_guid = match select_codec(codec, encoders) {
        Ok(guid) => guid,
        Err(error) => {
            return Err(error);
        },
    };
    let profile_guid = match select_profile(codec, profiles) {
        Ok(guid) => guid,
        Err(error) => {
            return Err(error);
        },
    };
    let buffer_format = match select_input_format(input_formats) {
        Ok(format) => format,
        Err(error) => {
            return Err(error);
        },
    };
    Ok(
        SessionParams {
            encode_guid,
            preset_guid: preset_lossless_default(),
            profile_guid,
            encode_width: output_size.0,
            encode_height: output_size.1,
            buffer_format,
            frame_rate_num: framerate.0,
            frame_rate_den: framerate.1,
            enable_ptd: true,
        },
    )
}

/// Rows of an NV12 picture of `height` lines: the luma rows and half as many
/// rows of interleaved chroma.
pub fn nv12_rows(height: u32) -> (rows: u64)
    ensures
        rows == height * 3 / 2,
{
    height as u64 * 3 / 2
}

/// Whether a picture of this type starts a new coded sequence.
pub fn is_keyframe(picture_type: u32) -> (keyframe: bool)
    ensures
        keyframe == (picture_type == NV_ENC_PIC_TYPE_IDR),
{
    picture_type == NV_ENC_PIC_TYPE_IDR
}

/// What the engine answered to a submitted picture.
#[derive(Clone, Copy, Debug, PartialEq, Eq, Structural)]
pub enum EncodeStatus {
    /// The picture was taken and output is ready.
    Success,
    /// The picture was taken and is held back for reordering.
    NeedMoreInput,
    /// The picture was refused with this status.
    Failed(u32),
}

impl EncodeStatus {
    /// The answer that the status number stands for.
    pub open spec fn of(status: u32) -> Self {
        if status == NV_ENC_SUCCESS {
            EncodeStatus::Success
        } else if status == NV_ENC_ERR_NEED_MORE_INPUT {
            EncodeStatus::NeedMoreInput
        } else {
            EncodeStatus::Failed(status)
        }
    }

    /// Reads the engine's status number.
    pub fn from_raw(status: u32) -> (answer: Self)
        ensures
            answer == Self::of(status),
    {
        if status == NV_ENC_SUCCESS {
            EncodeStatus::Success
        } else if status == NV_ENC_ERR_NEED_MORE_INPUT {
            EncodeStatus::NeedMoreInput
        } else {
            EncodeStatus::Failed(status)
        }
    }
}

/// A picture on its way through the engine: the permit of its slot and
/// whatever the caller keeps mapped for it.
#[derive(Debug)]
pub struct Submission<R> {
    pub permit: Permit,
    pub resource: R,
}

/// What became of a submitted picture.
#[derive(Debug)]
pub enum Settled<R> {
    /// These pictures are ready for retrieval, in the order of submission.
    Flush(VecDeque<Submission<R>>),
    /// The picture is pending.
    Deferred,
    /// The engine refused the picture; it is handed back with the status.
    Failed { status: u32, submission: Submission<R> },
}

/// Why a submission did not end well.
#[derive(Debug)]
pub enum SubmitError<R> {
    /// The engine refused the picture; it is handed back with the status,
    /// its permit still out.
    Engine { status: u32, submission: Submission<R> },
    /// The retrieval queue took no more: these pictures, in their order,
    /// were ready but not delivered.
    Undelivered(VecDeque<Submission<R>>),
}

/// Why the end of the stream did not go through.
#[derive(Debug)]
pub enum EndError<R> {
    /// The engine refused the closing picture with this status.
    Engine(u32),
    /// The retrieval queue took no more: these pictures, in their order,
    /// were pending and not delivered.
    Undelivered(VecDeque<Submission<R>>),
}

/// The pictures that wait for the engine to release them, oldest first.
#[derive(Debug)]
pub struct PendingQueue<R> {
    pending: VecDeque<Submission<R>>,
}

impl<R> View for PendingQueue<R> {
    type V = Seq<Submission<R>>;

    closed spec fn view(&self) -> Seq<Submission<R>> {
        self.pending@
    }
}

impl<R> PendingQueue<R> {
    /// What has to go to the retrieval queue after `submission` got the
    /// answer `status`, pictures before it being `pending`.
    pub open spec fn flushed_by(
        pending: Seq<Submission<R>>,
        submission: Submission<R>,
        status: EncodeStatus,
    ) -> Seq<Submission<R>> {
        match status {
            EncodeStatus::Success => pending.push(submission),
            _ => Seq::empty(),
        }
    }

    /// What stays pending after `submission` got the answer `status`.
    pub open spec fn pending_after(
        pending: Seq<Submission<R>>,
        submission: Submission<R>,
        status: EncodeStatus,
    ) -> Seq<Submission<R>> {
        match status {
            EncodeStatus::Success => Seq::empty(),
            EncodeStatus::NeedMoreInput => pending.push(submission),
            EncodeStatus::Failed(_) => pending,
        }
    }

    /// A queue with nothing pending.
    pub fn new() -> (queue: Self)
        ensures
            queue@ == Seq::<Submission<R>>::empty(),
    {
        PendingQueue { pending: VecDeque::new() }
    }

    /// Number of pictures that are pending.
    pub fn len(&self) -> (len: usize)
        ensures
            len == self@.len(),
    {
        self.pending.len()
    }

    /// Books the engine's answer to `submission`. On success everything
    /// pending and then the picture itself is handed out for retrieval; on
    /// "need more input" the picture joins the pending ones; on a failure
    /// the picture is handed back and nothing else changes.
    pub fn settle(&mut self, submission: Submission<R>, status: EncodeStatus) -> (settled: Settled<
        R,
    >)
        ensures
            final(self)@ == Self::pending_after(old(self)@, submission, status),
            match status {
                EncodeStatus::Success => settled matches Settled::Flush(batch) && batch@
                    == Self::flushed_by(old(self)@, submission, status),
                EncodeStatus::NeedMoreInput => settled is Deferred,
                EncodeStatus::Failed(code) => settled matches Settled::Failed {
                    status: reported,
                    submission: returned,
                } && reported == code && returned == submission,
            },
    {
        match status {
            EncodeStatus::Success => {
                let mut batch: VecDeque<Submission<R>> = VecDeque::new();
                std::mem::swap(&mut self.pending, &mut batch);
                batch.push_back(submission);
                Settled::Flush(batch)
            },
            EncodeStatus::NeedMoreInput => {
                self.pending.push_back(submission);
                Settled::Deferred
            },
            EncodeStatus::Failed(code) => Settled::Failed { status: code, submission },
        }
    }

    /// Hands out everything pending, oldest first, as at the end of the
    /// stream.
    pub fn drain(&mut self) -> (batch: VecDeque<Submission<R>>)
        ensures
            batch@ == old(self)@,
            final(self)@ == Seq::<Submission<R>>::empty(),
    {
        let mut batch: VecDeque<Submission<R>> = VecDeque::new();
        std::mem::swap(&mut self.pending, &mut batch);
        batch
    }
}

/// The sequential half of an encoder: the pending pictures and the queue on
/// which finished ones travel to the consumer.
#[verifier::reject_recursive_types(R)]
pub struct EncodeQueue<R> {
    pending: PendingQueue<R>,
    output: Delivery<Submission<R>>,
}

impl<R> EncodeQueue<R> {
    /// The pictures that are pending, oldest first.
    pub closed spec fn pending(&self) -> Seq<Submission<R>> {
        self.pending@
    }

    /// Pictures may still be submitted: the end of the stream has not been
    /// sent.
    pub closed spec fn accepting(&self) -> bool {
        self.output.is_open()
    }

    /// The retrieval queue.
    pub closed spec fn retrieval(&self) -> Delivery<Submission<R>> {
        self.output
    }

    /// An encoder core for `surfaces` slots. The retrieval queue has room
    /// for one picture per slot, so that handing pictures over never waits.
    pub fn new(surfaces: usize) -> (queue: Self)
        ensures
            queue.accepting(),
            queue.pending() == Seq::<Submission<R>>::empty(),
    {
        EncodeQueue { pending: PendingQueue::new(), output: Delivery::bounded(surfaces) }
    }

    /// Whether pictures may still be submitted.
    pub fn is_accepting(&self) -> (accepting: bool)
        ensures
            accepting == self.accepting(),
    {
        self.output.accepts()
    }

    /// Number of pictures that are pending.
    pub fn pending_len(&self) -> (len: usize)
        ensures
            len == self.pending().len(),
    {
        self.pending.len()
    }

    /// Books the engine's answer to `submission` and delivers what it
    /// releases.
    ///
    /// `Ok(true)`: the picture and everything pending before it went to the
    /// retrieval queue, in the order of submission. `Ok(false)`: the picture
    /// is pending. An engine failure hands the picture back. Pictures that
    /// the retrieval queue refused come back in `Undelivered`; they are the
    /// tail of what was released.
    pub fn submitted(&mut self, submission: Submission<R>, status: EncodeStatus) -> (outcome:
        Result<bool, SubmitError<R>>)
        requires
            old(self).accepting(),
        ensures
            final(self).accepting(),
            final(self).pending() == PendingQueue::pending_after(
                old(self).pending(),
                submission,
                status,
            ),
            match status {
                EncodeStatus::Success => match outcome {
                    Ok(flushed) => flushed,
                    Err(SubmitError::Undelivered(rest)) => {
                        let released = PendingQueue::flushed_by(
                            old(self).pending(),
                            submission,
                            status,
                        );
                        rest@.len() > 0 && rest@ == released.subrange(
                            released.len() - rest@.len(),
                            released.len() as int,
                        )
                    },
                    Err(SubmitError::Engine { .. }) => false,
                },
                EncodeStatus::NeedMoreInput => outcome == Ok::<bool, SubmitError<R>>(false),
                EncodeStatus::Failed(code) => outcome matches Err(
                    SubmitError::Engine { status: reported, submission: returned },
                ) && reported == code && returned == submission,
            },
    {
        match self.pending.settle(submission, status) {
            Settled::Flush(batch) => match self.output.send_all(batch) {
                Ok(()) => Ok(true),
                Err(rest) => Err(SubmitError::Undelivered(rest)),
            },
            Settled::Deferred => Ok(false),
            Settled::Failed { status, submission } => Err(
                SubmitError::Engine { status, submission },
            ),
        }
    }

    /// Books the engine's answer to the picture that marks the end of the
    /// stream. On success everything still pending is delivered, oldest
    /// first, and the retrieval queue is closed: no picture may be submitted
    /// any more. On any other status nothing changes and the status comes
    /// back. After the end of the stream the call changes nothing and
    /// succeeds.
    pub fn end_of_stream(&mut self, status: u32) -> (outcome: Result<(), EndError<R>>)
        ensures
            final(self).accepting() == (old(self).accepting() && status != NV_ENC_SUCCESS),
            final(self).pending() == if old(self).accepting() && status == NV_ENC_SUCCESS {
                Seq::<Submission<R>>::empty()
            } else {
                old(self).pending()
            },
            !old(self).accepting() ==> outcome is Ok,
            old(self).accepting() && status != NV_ENC_SUCCESS ==> (outcome matches Err(
                EndError::Engine(reported),
            ) && reported == status),
            old(self).accepting() && status == NV_ENC_SUCCESS ==> match outcome {
                Ok(()) => true,
                Err(EndError::Undelivered(rest)) => {
                    let pending = old(self).pending();
                    rest@.len() > 0 && rest@ == pending.subrange(
                        pending.len() - rest@.len(),
                        pending.len() as int,
                    )
                },
                Err(EndError::Engine(_)) => false,
            },
    {
        if !self.output.accepts() {
            return Ok(());
        }
        if status != NV_ENC_SUCCESS {
            return Err(EndError::Engine(status));
        }
        let batch = self.pending.drain();
        let sent = self.output.send_all(batch);
        self.output.close();
        match sent {
            Ok(()) => Ok(()),
            Err(rest) => Err(EndError::Undelivered(rest)),
        }
    }

    /// Waits for the next finished picture. `None` comes only after the end
    /// of the stream, once everything was retrieved.
    pub fn retrieve(&self) -> (submission: Option<Submission<R>>)
        ensures
            self.accepting() ==> submission is Some,
    {
        self.output.recv()
    }

    /// The retrieval queue, for a consumer on another thread.
    pub fn output(&self) -> (output: &Delivery<Submission<R>>)
        ensures
            *output == self.retrieval(),
            output.is_open() == self.accepting(),
    {
        &self.output
    }
}

/// One submitted picture with the engine's answer to it.
pub struct Answered<R> {
    pub submission: Submission<R>,
    pub status: EncodeStatus,
}

/// The pictures among `history` that the engine took, in their order.
pub open spec fn taken<R>(history: Seq<Answered<R>>) -> Seq<Submission<R>>
    decreases history.len(),
{
    if history.len() == 0 {
        Seq::empty()
    } else {
        let earlier = taken(history.drop_last());
        if history.last().status is Failed {
            earlier
        } else {
            earlier.push(history.last().submission)
        }
    }
}

/// What is pending after `history`, where `start` was pending before it.
pub open spec fn pending_through<R>(start: Seq<Submission<R>>, history: Seq<Answered<R>>) -> Seq<
    Submission<R>,
>
    decreases history.len(),
{
    if history.len() == 0 {
        start
    } else {
        PendingQueue::pending_after(
            pending_through(start, history.drop_last()),
            history.last().submission,
            history.last().status,
        )
    }
}

/// What went to the retrieval queue in the course of `history`, where
/// `start` was pending before it.
pub open spec fn released_through<R>(start: Seq<Submission<R>>, history: Seq<Answered<R>>) -> Seq<
    Submission<R>,
>
    decreases history.len(),
{
    if history.len() == 0 {
        Seq::empty()
    } else {
        released_through(start, history.drop_last()) + PendingQueue::flushed_by(
            pending_through(start, history.drop_last()),
            history.last().submission,
            history.last().status,
        )
    }
}

/// No picture that the engine took is dropped or reordered: after any
/// history of submissions, what was released followed by what is pending is
/// what was pending at first followed by every picture taken since, in the
/// order of submission.
pub proof fn law_taken_pictures_are_kept<R>(start: Seq<Submission<R>>, history: Seq<Answered<R>>)
    ensures
        released_through(start, history) + pending_through(start, history) == start + taken(
            history,
        ),
    decreases history.len(),
{
    if history.len() == 0 {
        assert(released_through(start, history) + pending_through(start, history) =~= start
            + taken(history));
    } else {
        let earlier = history.drop_last();
        law_taken_pictures_are_kept(start, earlier);
        let released = released_through(start, earlier);
        let pending = pending_through(start, earlier);
        assert(released + pending == start + taken(earlier));
        let last = history.last();
        match last.status {
            EncodeStatus::Success => {
                assert((released + pending.push(last.submission)) + Seq::<
                    Submission<R>,
                >::empty() =~= (released + pending).push(last.submission));
                assert((start + taken(earlier)).push(last.submission) =~= start + taken(
                    earlier,
                ).push(last.submission));
            },
            EncodeStatus::NeedMoreInput => {
                assert((released + Seq::<Submission<R>>::empty()) + pending.push(last.submission)
                    =~= (released + pending).push(last.submission));
                assert((start + taken(earlier)).push(last.submission) =~= start + taken(
                    earlier,
                ).push(last.submission));
            },
            EncodeStatus::Failed(_) => {
                assert(released + Seq::<Submission<R>>::empty() =~= released);
            },
        }
    }
}

/// Every pending picture is released together with the next picture that
/// the engine accepts: after a history that ends in a success nothing is
/// pending, and everything taken so far has been released.
pub proof fn law_success_flushes_pending<R>(start: Seq<Submission<R>>, history: Seq<Answered<R>>)
    requires
        history.len() > 0,
        history.last().status is Success,
    ensures
        pending_through(start, history) == Seq::<Submission<R>>::empty(),
        released_through(start, history) == start + taken(history),
{
    law_taken_pictures_are_kept(start, history);
    assert(released_through(start, history) + Seq::<Submission<R>>::empty() =~= released_through(
        start,
        history,
    ));
}

/// The end of the stream releases whatever is still pending: what was
/// released in the course of a history, followed by what the end of the
/// stream drains, is every picture taken.
pub proof fn law_end_of_stream_flushes_pending<R>(history: Seq<Answered<R>>)
    ensures
        released_through(Seq::empty(), history) + pending_through(Seq::empty(), history) == taken(
            history,
        ),
{
    law_taken_pictures_are_kept(Seq::<Submission<R>>::empty(), history);
    assert(Seq::<Submission<R>>::empty() + taken(history) =~= taken(history));
}

} // verus!
