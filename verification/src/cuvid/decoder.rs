//! Decode coordination: what the host decides in the engine's callbacks.
//!
//! The engine reports a stream's format through the sequence callback and
//! expects the number of decode surfaces in reply. Between the report and
//! the reply the host queries the device, creates, recreates or reconfigures
//! its decoder, and sizes the bound on mapped frames. The calls into
//! the engine are made by the caller; every decision between them is made
//! here.
use vstd::prelude::*;

use super::chroma::VideoChromaFormat;
use super::codec::Codec;
use super::gate::FlightGate;
use super::surface::VideoSurfaceFormat;

verus! {

/// Surfaces added to the minimum that the engine reports. With exactly the
/// minimum the engine stalls as soon as every surface is either locked for
/// display or on its way to the consumer.
pub const ADDITIONAL_DECODE_SURFACES: usize = 3;

/// Output surfaces of a decoder for which the caller requested no number.
pub const DEFAULT_OUTPUT_SURFACES: usize = 3;

/// Decode surfaces requested from the engine where the caller named none.
pub const DEFAULT_DECODE_SURFACES: usize = 1;

/// Ticks per second of the timestamps that the parser hands on.
pub const PARSER_CLOCK_RATE: u32 = 10_000_000;

/// Share of corrupt macroblocks, in percent, up to which the parser still
/// hands a picture on.
pub const PARSER_ERROR_THRESHOLD: u32 = 100;

/// Packet flag: the stream ends with this packet.
pub const PACKET_END_OF_STREAM: u32 = 0x01;

/// Packet flag: the packet carries a timestamp.
pub const PACKET_TIMESTAMP: u32 = 0x02;

/// Packet flag: the display callback is to be told of the end of the stream.
pub const PACKET_NOTIFY_EOS: u32 = 0x10;

/// Everything the engine is told when a parser is created.
#[derive(Clone, Copy, Debug, PartialEq, Eq, Structural)]
pub struct ParserParams {
    pub codec: Codec,
    pub max_num_decode_surfaces: usize,
    pub clock_rate: u32,
    pub error_threshold: u32,
    /// Pictures that the parser holds back before display: none for low
    /// latency, else one.
    pub max_display_delay: u32,
}

/// The parser that is asked for.
pub open spec fn parser_for(codec: Codec, decode_surfaces: Option<usize>, low_latency: bool)
    -> ParserParams {
    ParserParams {
        codec,
        max_num_decode_surfaces: match decode_surfaces {
            Some(n) => n,
            None => DEFAULT_DECODE_SURFACES,
        },
        clock_rate: PARSER_CLOCK_RATE,
        error_threshold: PARSER_ERROR_THRESHOLD,
        max_display_delay: if low_latency {
            0u32
        } else {
            1u32
        },
    }
}

/// Describes the parser to create for a decoder.
pub fn parser_params(codec: Codec, decode_surfaces: Option<usize>, low_latency: bool) -> (params:
    ParserParams)
    ensures
        params == parser_for(codec, decode_surfaces, low_latency),
{
    ParserParams {
        codec,
        max_num_decode_surfaces: match decode_surfaces {
            Some(n) => n,
            None => DEFAULT_DECODE_SURFACES,
        },
        clock_rate: PARSER_CLOCK_RATE,
        error_threshold: PARSER_ERROR_THRESHOLD,
        max_display_delay: if low_latency {
            0
        } else {
            1
        },
    }
}

/// Flags of a packet handed to the parser: a packet of data carries its
/// timestamp; the closing packet ends the stream and asks for the display
/// callback to be told.
pub fn packet_flags(end_of_stream: bool) -> (flags: u32)
    ensures
        flags == if end_of_stream {
            0x11u32
        } else {
            0x02u32
        },
{
    if end_of_stream {
        assert(PACKET_END_OF_STREAM | PACKET_NOTIFY_EOS == 0x11u32) by (bit_vector);
        PACKET_END_OF_STREAM | PACKET_NOTIFY_EOS
    } else {
        PACKET_TIMESTAMP
    }
}

/// Identity of a decoder object inside the engine.
#[derive(Clone, Copy, Debug, PartialEq, Eq, Structural)]
pub struct DecoderHandle(pub u64);

/// The part of a coded picture that is meant to be shown.
#[derive(Clone, Copy, Debug, PartialEq, Eq, Structural)]
pub struct DisplayArea {
    pub left: i32,
    pub top: i32,
    pub right: i32,
    pub bottom: i32,
}

/// Distance from `low` to `high`, taken modulo 2^32 where `high` lies below
/// `low`.
pub open spec fn extent(low: i32, high: i32) -> u32 {
    if high >= low {
        (high - low) as u32
    } else {
        (high - low + 0x1_0000_0000) as u32
    }
}

/// Distance from `low` to `high`, taken modulo 2^32 where `high` lies below
/// `low`.
pub fn span(low: i32, high: i32) -> (distance: u32)
    ensures
        distance == extent(low, high),
{
    let difference: i64 = high as i64 - low as i64;
    if difference >= 0 {
        difference as u32
    } else {
        (difference + 0x1_0000_0000) as u32
    }
}

impl DisplayArea {
    /// Width of the area.
    pub open spec fn width(self) -> u32 {
        extent(self.left, self.right)
    }

    /// Height of the area.
    pub open spec fn height(self) -> u32 {
        extent(self.top, self.bottom)
    }
}

/// What the engine reports of a stream in the sequence callback.
#[derive(Clone, Copy, Debug, PartialEq, Eq, Structural)]
pub struct VideoFormat {
    pub codec: Codec,
    pub chroma_format: VideoChromaFormat,
    pub progressive_sequence: bool,
    pub bit_depth_luma_minus8: u8,
    pub bit_depth_chroma_minus8: u8,
    pub min_num_decode_surfaces: u8,
    pub coded_width: u32,
    pub coded_height: u32,
    pub display_area: DisplayArea,
}

/// What the device answers to a capability query for one codec, chroma
/// format and bit depth.
#[derive(Clone, Copy, Debug, PartialEq, Eq, Structural)]
pub struct DecodeCaps {
    pub supported: bool,
    pub max_width: u32,
    pub max_height: u32,
    pub max_mb_count: u32,
    pub output_format_mask: u16,
}

/// How the decoder treats interlaced material.
#[derive(Clone, Copy, Debug, PartialEq, Eq, Structural)]
pub enum DeinterlaceMode {
    Weave,
    Adaptive,
}

/// Everything the engine is told when a decoder is created.
#[derive(Clone, Copy, Debug, PartialEq, Eq, Structural)]
pub struct DecoderCreateInfo {
    pub codec: Codec,
    pub chroma_format: VideoChromaFormat,
    pub output_format: VideoSurfaceFormat,
    pub bit_depth_minus8: u8,
    pub deinterlace: DeinterlaceMode,
    pub num_decode_surfaces: usize,
    pub num_output_surfaces: usize,
    pub width: u32,
    pub height: u32,
    pub max_width: u32,
    pub max_height: u32,
    pub target_width: u32,
    pub target_height: u32,
    pub intra_decode_only: bool,
    /// Source rectangle scaled to the target; named only where the caller
    /// asked for an output size.
    pub display_area: Option<DisplayArea>,
}

/// Everything the engine is told when a decoder is reconfigured.
#[derive(Clone, Copy, Debug, PartialEq, Eq, Structural)]
pub struct DecoderReconfigureInfo {
    pub width: u32,
    pub height: u32,
    pub target_width: u32,
    pub target_height: u32,
    pub num_decode_surfaces: usize,
    /// Source rectangle scaled to the target; named only where the caller
    /// asked for an output size.
    pub display_area: Option<DisplayArea>,
}

/// Where the decoder stands between two sequence callbacks.
#[derive(Clone, Copy, Debug, PartialEq, Eq, Structural)]
pub enum DecoderPhase {
    /// No decoder has been created.
    Uninitialized,
    /// A decoder exists and no negotiation is under way.
    Created { decoder: DecoderHandle },
    /// The decoder is about to be reconfigured in place.
    Reconfiguring { decoder: DecoderHandle },
    /// The decoder named by `retiring`, if any, has to be destroyed before a
    /// new one is created.
    Recreating { retiring: Option<DecoderHandle> },
}

/// Why a stream is declined.
#[derive(Clone, Copy, Debug, PartialEq, Eq, Structural)]
pub enum DeclineReason {
    /// The device could not be asked for its capabilities.
    QueryFailed,
    /// The device does not decode the codec in this chroma format and depth.
    Unsupported,
    /// The coded size exceeds what the device decodes.
    ResolutionTooLarge,
    /// The picture has more macroblocks than the device decodes.
    TooManyMacroblocks,
}

/// What the caller has to do with the engine after a negotiation.
#[derive(Clone, Copy, Debug, PartialEq, Eq, Structural)]
pub enum SequenceAction {
    /// Nothing: the device cannot take the stream, or could not be asked.
    /// The reply is the padded minimum.
    Decline(DeclineReason),
    /// Nothing: the device does not offer the pinned output format. The
    /// reply is zero.
    Unsupported,
    /// Destroy the present decoder, if any, once no frame is mapped, and
    /// create one from this description.
    Recreate(DecoderCreateInfo),
    /// Reconfigure the present decoder in place.
    Reconfigure(DecoderReconfigureInfo),
    /// Leave the decoder as it is. `crop_changed` tells that the display
    /// area differs from the one negotiated last; such a change is not
    /// handled yet, and the decoder is left as it is all the same.
    Keep { crop_changed: bool },
}

/// Outcome of a negotiation.
#[derive(Clone, Copy, Debug, PartialEq, Eq, Structural)]
pub struct SequencePlan {
    pub action: SequenceAction,
    /// What the engine is told where the action is declined or fails.
    pub min_surfaces: usize,
    /// What the engine is told where the action succeeds.
    pub decode_surfaces: usize,
    /// Bound of the frames-in-flight gate from now on.
    pub output_surfaces: usize,
}

impl SequencePlan {
    /// The engine is to be asked for something before it gets its reply.
    pub open spec fn proceeds(self) -> bool {
        self.action is Recreate || self.action is Reconfigure || self.action is Keep
    }

    /// The reply that is due at once: the padded minimum where the stream is
    /// declined, zero where the output format is not offered, and none where
    /// the engine is to be asked first.
    pub open spec fn immediate_reply_for(self) -> Option<usize> {
        match self.action {
            SequenceAction::Decline(_) => Some(self.min_surfaces),
            SequenceAction::Unsupported => Some(0usize),
            _ => None,
        }
    }

    /// The reply that is due at once, if any.
    pub fn immediate_reply(&self) -> (reply: Option<usize>)
        ensures
            reply == self.immediate_reply_for(),
            reply is None <==> self.proceeds(),
    {
        match self.action {
            SequenceAction::Decline(_) => Some(self.min_surfaces),
            SequenceAction::Unsupported => Some(0),
            _ => None,
        }
    }
}

/// What to do with the decoder that a recreation replaces.
#[derive(Clone, Copy, Debug, PartialEq, Eq, Structural)]
pub enum Retire {
    /// Frames are still mapped: wait for a release and ask again.
    Wait,
    /// No frame is mapped: destroy this decoder now.
    Destroy(DecoderHandle),
    /// There is no decoder left to destroy.
    Nothing,
}

/// The engine's minimum with the fixed headroom added.
pub open spec fn padded_minimum(format: VideoFormat) -> int {
    format.min_num_decode_surfaces + ADDITIONAL_DECODE_SURFACES
}

/// Number of 16 by 16 macroblocks in a coded picture.
pub open spec fn macroblocks(format: VideoFormat) -> int {
    (format.coded_width / 16) * (format.coded_height / 16)
}

/// Whether the device can decode a stream of this format at all.
pub open spec fn device_admits(format: VideoFormat, caps: DecodeCaps) -> bool {
    &&& caps.supported
    &&& format.coded_width <= caps.max_width
    &&& format.coded_height <= caps.max_height
    &&& macroblocks(format) <= caps.max_mb_count
}

/// The first reason for which the device declines the stream, if any: the
/// codec, then the coded size, then the number of macroblocks.
pub open spec fn decline_reason_for(format: VideoFormat, caps: DecodeCaps) -> Option<
    DeclineReason,
> {
    if !caps.supported {
        Some(DeclineReason::Unsupported)
    } else if format.coded_width > caps.max_width || format.coded_height > caps.max_height {
        Some(DeclineReason::ResolutionTooLarge)
    } else if macroblocks(format) > caps.max_mb_count {
        Some(DeclineReason::TooManyMacroblocks)
    } else {
        None
    }
}

/// Whether the device offers the surface format `output` in `caps`.
pub open spec fn format_offered(caps: DecodeCaps, output: VideoSurfaceFormat) -> bool {
    (caps.output_format_mask >> (output.code() as u16)) & 1 == 1
}

/// The surface format that suits a stream best: 16-bit formats for depths
/// above eight bits, planar 4:4:4 for 4:4:4 streams, NV12 for the rest.
pub open spec fn natural_output_format(chroma_format: VideoChromaFormat, bit_depth_minus8: u8)
    -> VideoSurfaceFormat {
    match chroma_format {
        VideoChromaFormat::YUV444 => if bit_depth_minus8 != 0 {
            VideoSurfaceFormat::YUV444_16
        } else {
            VideoSurfaceFormat::YUV444
        },
        VideoChromaFormat::YUV422 => VideoSurfaceFormat::NV12,
        _ => if bit_depth_minus8 != 0 {
            VideoSurfaceFormat::P016
        } else {
            VideoSurfaceFormat::NV12
        },
    }
}

/// The surface format chosen by what the device offers: the natural format
/// of the stream where it is offered, else the first offered of NV12, P016,
/// YUV444 and 16-bit YUV444, and none where none of them is offered.
pub open spec fn offered_output_format(
    chroma_format: VideoChromaFormat,
    bit_depth_minus8: u8,
    caps: DecodeCaps,
) -> Option<VideoSurfaceFormat> {
    if format_offered(caps, natural_output_format(chroma_format, bit_depth_minus8)) {
        Some(natural_output_format(chroma_format, bit_depth_minus8))
    } else if format_offered(caps, VideoSurfaceFormat::NV12) {
        Some(VideoSurfaceFormat::NV12)
    } else if format_offered(caps, VideoSurfaceFormat::P016) {
        Some(VideoSurfaceFormat::P016)
    } else if format_offered(caps, VideoSurfaceFormat::YUV444) {
        Some(VideoSurfaceFormat::YUV444)
    } else if format_offered(caps, VideoSurfaceFormat::YUV444_16) {
        Some(VideoSurfaceFormat::YUV444_16)
    } else {
        None
    }
}

/// Chooses a surface format by what the device offers.
///
/// Negotiation does not use this choice: it pins NV12, which every consumer
/// of the frames takes, and reports zero surfaces where the device does not
/// offer it. The choice is kept for consumers that take other formats.
pub fn choose_output_format(
    chroma_format: VideoChromaFormat,
    bit_depth_minus8: u8,
    caps: &DecodeCaps,
) -> (choice: Option<VideoSurfaceFormat>)
    ensures
        choice == offered_output_format(chroma_format, bit_depth_minus8, *caps),
        choice matches Some(format) ==> format_offered(*caps, format),
{
    let natural = match chroma_format {
        VideoChromaFormat::YUV444 => if bit_depth_minus8 != 0 {
            VideoSurfaceFormat::YUV444_16
        } else {
            VideoSurfaceFormat::YUV444
        },
        VideoChromaFormat::YUV422 => VideoSurfaceFormat::NV12,
        _ => if bit_depth_minus8 != 0 {
            VideoSurfaceFormat::P016
        } else {
            VideoSurfaceFormat::NV12
        },
    };
    if offers(caps, natural) {
        Some(natural)
    } else if offers(caps, VideoSurfaceFormat::NV12) {
        Some(VideoSurfaceFormat::NV12)
    } else if offers(caps, VideoSurfaceFormat::P016) {
        Some(VideoSurfaceFormat::P016)
    } else if offers(caps, VideoSurfaceFormat::YUV444) {
        Some(VideoSurfaceFormat::YUV444)
    } else if offers(caps, VideoSurfaceFormat::YUV444_16) {
        Some(VideoSurfaceFormat::YUV444_16)
    } else {
        None
    }
}

/// What a decoder was asked for when it was set up, and what it has
/// negotiated with the engine since.
#[derive(Clone, Copy, Debug, PartialEq, Eq)]
pub struct DecoderState {
    pub keyframe_only: bool,
    /// Output size that the caller asked for; a zero in either place means
    /// the size of the stream's display area.
    pub requested_size: (u32, u32),
    pub requested_decode_surfaces: Option<usize>,
    pub requested_output_surfaces: Option<usize>,
    pub phase: DecoderPhase,
    pub codec: Codec,
    pub chroma_format: VideoChromaFormat,
    pub bit_depth_minus8: u8,
    /// Bytes per sample.
    pub bpp: u8,
    pub output_format: VideoSurfaceFormat,
    pub out_size: (u32, u32),
    pub coded_size: (u32, u32),
    /// Display area of the stream negotiated last.
    pub display_area: DisplayArea,
    pub current_output_surfaces: usize,
    /// Reply to the engine where the action under way fails.
    pub min_surfaces: usize,
    /// Reply to the engine where the action under way succeeds.
    pub decode_surfaces: usize,
}

impl DecoderState {
    /// The decoder that exists now, in whatever phase.
    pub open spec fn decoder(self) -> Option<DecoderHandle> {
        match self.phase {
            DecoderPhase::Uninitialized => None,
            DecoderPhase::Created { decoder } => Some(decoder),
            DecoderPhase::Reconfiguring { decoder } => Some(decoder),
            DecoderPhase::Recreating { retiring } => retiring,
        }
    }

    /// No negotiation is under way.
    pub open spec fn settled(self) -> bool {
        self.phase is Uninitialized || self.phase is Created
    }

    /// The caller asked for an output size of its own.
    pub open spec fn scales(self) -> bool {
        self.requested_size.0 > 0 && self.requested_size.1 > 0
    }

    /// Decode surfaces to negotiate for `format`: the padded minimum, or the
    /// number the caller requested where that is larger.
    pub open spec fn decode_surfaces_for(self, format: VideoFormat) -> int {
        let requested: int = match self.requested_decode_surfaces {
            Some(n) => n as int,
            None => DEFAULT_DECODE_SURFACES as int,
        };
        if requested > padded_minimum(format) {
            requested
        } else {
            padded_minimum(format)
        }
    }

    /// Output surfaces for `format`: the default where the caller requested
    /// none, as many as decode surfaces where it requested zero, else what it
    /// requested.
    pub open spec fn output_surfaces_for(self, format: VideoFormat) -> int {
        match self.requested_output_surfaces {
            None => DEFAULT_OUTPUT_SURFACES as int,
            Some(n) => if n == 0 {
                self.decode_surfaces_for(format)
            } else {
                n as int
            },
        }
    }

    /// A decoder has to be created anew: none exists, or the bit depth or
    /// the chroma format differs from that of the one that does.
    pub open spec fn must_recreate(self, format: VideoFormat) -> bool {
        ||| self.decoder() is None
        ||| self.bit_depth_minus8 != format.bit_depth_luma_minus8
        ||| self.chroma_format != format.chroma_format
    }

    /// The coded size differs from the one negotiated last.
    pub open spec fn resolution_changed(self, format: VideoFormat) -> bool {
        !(format.coded_width == self.coded_size.0 && format.coded_height == self.coded_size.1)
    }

    /// Size of the frames handed to the consumer for `format`.
    pub open spec fn out_size_for(self, format: VideoFormat) -> (u32, u32) {
        if self.scales() {
            self.requested_size
        } else {
            (format.display_area.width(), format.display_area.height())
        }
    }

    /// Coded size remembered for `format`.
    pub open spec fn coded_size_for(self, format: VideoFormat) -> (u32, u32) {
        if self.scales() {
            self.requested_size
        } else {
            (format.coded_width, format.coded_height)
        }
    }

    /// Description of the decoder to create for `format`.
    pub open spec fn create_info_for(self, format: VideoFormat) -> DecoderCreateInfo {
        DecoderCreateInfo {
            codec: format.codec,
            chroma_format: format.chroma_format,
            output_format: VideoSurfaceFormat::NV12,
            bit_depth_minus8: format.bit_depth_luma_minus8,
            deinterlace: if format.progressive_sequence {
                DeinterlaceMode::Weave
            } else {
                DeinterlaceMode::Adaptive
            },
            num_decode_surfaces: self.decode_surfaces_for(format) as usize,
            num_output_surfaces: self.output_surfaces_for(format) as usize,
            width: format.coded_width,
            height: format.coded_height,
            max_width: format.coded_width,
            max_height: format.coded_height,
            target_width: self.out_size_for(format).0,
            target_height: self.out_size_for(format).1,
            intra_decode_only: self.keyframe_only,
            display_area: if self.scales() {
                Some(format.display_area)
            } else {
                None
            },
        }
    }

    /// Description of the reconfiguration for `format`.
    pub open spec fn reconfigure_info_for(self, format: VideoFormat) -> DecoderReconfigureInfo {
        DecoderReconfigureInfo {
            width: format.coded_width,
            height: format.coded_height,
            target_width: if self.scales() {
                self.requested_size.0
            } else {
                format.coded_width
            },
            target_height: if self.scales() {
                self.requested_size.1
            } else {
                format.coded_height
            },
            num_decode_surfaces: self.decode_surfaces_for(format) as usize,
            display_area: if self.scales() {
                Some(format.display_area)
            } else {
                None
            },
        }
    }

    /// What the engine has to be asked to do for `format` on a device that
    /// answered `caps`, or `None` where the device could not be asked.
    pub open spec fn action_for(self, format: VideoFormat, caps: Option<DecodeCaps>)
        -> SequenceAction {
        match caps {
            None => SequenceAction::Decline(DeclineReason::QueryFailed),
            Some(caps) => if let Some(reason) = decline_reason_for(format, caps) {
                SequenceAction::Decline(reason)
            } else if !format_offered(caps, VideoSurfaceFormat::NV12) {
                SequenceAction::Unsupported
            } else if self.must_recreate(format) {
                SequenceAction::Recreate(self.create_info_for(format))
            } else if self.resolution_changed(format) {
                SequenceAction::Reconfigure(self.reconfigure_info_for(format))
            } else {
                SequenceAction::Keep { crop_changed: self.display_area != format.display_area }
            },
        }
    }

    /// The whole outcome of a negotiation.
    pub open spec fn plan_for(self, format: VideoFormat, caps: Option<DecodeCaps>)
        -> SequencePlan {
        let action = self.action_for(format, caps);
        SequencePlan {
            action,
            min_surfaces: padded_minimum(format) as usize,
            decode_surfaces: self.decode_surfaces_for(format) as usize,
            output_surfaces: if action is Recreate || action is Reconfigure || action is Keep {
                self.output_surfaces_for(format) as usize
            } else {
                self.current_output_surfaces
            },
        }
    }

    /// The state in which a negotiation leaves the decoder.
    pub open spec fn after_negotiation(self, format: VideoFormat, caps: Option<DecodeCaps>)
        -> Self {
        let stream = DecoderState {
            codec: format.codec,
            chroma_format: format.chroma_format,
            bit_depth_minus8: format.bit_depth_luma_minus8,
            bpp: if format.bit_depth_luma_minus8 > 0 {
                2u8
            } else {
                1u8
            },
            output_format: VideoSurfaceFormat::NV12,
            ..self
        };
        let sized = DecoderState {
            out_size: self.out_size_for(format),
            coded_size: self.coded_size_for(format),
            display_area: format.display_area,
            current_output_surfaces: self.output_surfaces_for(format) as usize,
            min_surfaces: padded_minimum(format) as usize,
            decode_surfaces: self.decode_surfaces_for(format) as usize,
            ..stream
        };
        match self.action_for(format, caps) {
            SequenceAction::Decline(_) => self,
            SequenceAction::Unsupported => stream,
            SequenceAction::Recreate(_) => DecoderState {
                phase: DecoderPhase::Recreating { retiring: self.decoder() },
                ..sized
            },
            SequenceAction::Reconfigure(_) => DecoderState {
                phase: DecoderPhase::Reconfiguring { decoder: self.decoder().unwrap() },
                ..sized
            },
            SequenceAction::Keep { .. } => sized,
        }
    }

    /// What `retire` answers while `in_flight` frames are mapped.
    pub open spec fn retire_for(self, in_flight: nat) -> Retire {
        match self.phase {
            DecoderPhase::Recreating { retiring: Some(decoder) } => if in_flight == 0 {
                Retire::Destroy(decoder)
            } else {
                Retire::Wait
            },
            _ => Retire::Nothing,
        }
    }

    /// The state in which `retire` leaves the decoder.
    pub open spec fn after_retire(self, in_flight: nat) -> Self {
        match self.retire_for(in_flight) {
            Retire::Destroy(_) => DecoderState {
                phase: DecoderPhase::Recreating { retiring: None },
                ..self
            },
            _ => self,
        }
    }

    /// The phase to which an abandoned action falls back.
    pub open spec fn fallback_phase(self) -> DecoderPhase {
        match self.decoder() {
            Some(decoder) => DecoderPhase::Created { decoder },
            None => DecoderPhase::Uninitialized,
        }
    }

    /// The state of a decoder that has not negotiated yet.
    pub fn new(
        keyframe_only: bool,
        output_size: (u32, u32),
        decode_surfaces: Option<usize>,
        output_surfaces: Option<usize>,
        codec: Codec,
    ) -> (state: Self)
        ensures
            state == (DecoderState {
                keyframe_only,
                requested_size: output_size,
                requested_decode_surfaces: decode_surfaces,
                requested_output_surfaces: output_surfaces,
                phase: DecoderPhase::Uninitialized,
                codec,
                chroma_format: VideoChromaFormat::Monochrome,
                bit_depth_minus8: 0,
                bpp: 0,
                output_format: VideoSurfaceFormat::NV12,
                out_size: (0, 0),
                coded_size: (0, 0),
                display_area: DisplayArea { left: 0, top: 0, right: 0, bottom: 0 },
                current_output_surfaces: 0,
                min_surfaces: 0,
                decode_surfaces: 0,
            }),
    {
        DecoderState {
            keyframe_only,
            requested_size: output_size,
            requested_decode_surfaces: decode_surfaces,
            requested_output_surfaces: output_surfaces,
            phase: DecoderPhase::Uninitialized,
            codec,
            chroma_format: VideoChromaFormat::Monochrome,
            bit_depth_minus8: 0,
            bpp: 0,
            output_format: VideoSurfaceFormat::NV12,
            out_size: (0, 0),
            coded_size: (0, 0),
            display_area: DisplayArea { left: 0, top: 0, right: 0, bottom: 0 },
            current_output_surfaces: 0,
            min_surfaces: 0,
            decode_surfaces: 0,
        }
    }

    /// The decoder that exists now, if any.
    pub fn current_decoder(&self) -> (decoder: Option<DecoderHandle>)
        ensures
            decoder == self.decoder(),
    {
        match self.phase {
            DecoderPhase::Uninitialized => None,
            DecoderPhase::Created { decoder } => Some(decoder),
            DecoderPhase::Reconfiguring { decoder } => Some(decoder),
            DecoderPhase::Recreating { retiring } => retiring,
        }
    }

    /// Decode surfaces to ask the parser for before any stream is seen.
    pub fn parser_surfaces(&self) -> (surfaces: usize)
        ensures
            surfaces == match self.requested_decode_surfaces {
                Some(n) => n,
                None => DEFAULT_DECODE_SURFACES,
            },
    {
        match self.requested_decode_surfaces {
            Some(n) => n,
            None => DEFAULT_DECODE_SURFACES,
        }
    }

    /// Decides what a sequence callback has to do.
    ///
    /// `caps` is the device's answer for the stream's codec, chroma format
    /// and chroma bit depth, or `None` where the device context could not be
    /// activated or released, or the query failed. Where the engine is to be
    /// asked for something, the bound of `gate` becomes the number of output
    /// surfaces negotiated; the count of mapped frames is never touched.
    pub fn negotiate(
        &mut self,
        gate: &mut FlightGate,
        format: &VideoFormat,
        caps: Option<DecodeCaps>,
    ) -> (plan: SequencePlan)
        ensures
            plan == old(self).plan_for(*format, caps),
            *final(self) == old(self).after_negotiation(*format, caps),
            plan.min_surfaces == padded_minimum(*format),
            plan.decode_surfaces >= plan.min_surfaces,
            final(gate).in_flight() == old(gate).in_flight(),
            final(gate).limit() == if plan.proceeds() {
                plan.output_surfaces as nat
            } else {
                old(gate).limit()
            },
            !plan.proceeds() ==> *final(gate) == *old(gate),
            plan.proceeds() ==> final(self).current_output_surfaces == final(gate).limit(),
            !(plan.action is Recreate) ==> final(self).decoder() == old(self).decoder(),
    {
        let min_surfaces: usize = minimum_surfaces(format);
        let requested: usize = self.parser_surfaces();
        let decode_surfaces: usize = if requested > min_surfaces {
            requested
        } else {
            min_surfaces
        };
        let caps = match caps {
            Some(caps) => caps,
            None => {
                return SequencePlan {
                    action: SequenceAction::Decline(DeclineReason::QueryFailed),
                    min_surfaces,
                    decode_surfaces,
                    output_surfaces: self.current_output_surfaces,
                };
            },
        };
        match decline_reason(format, &caps) {
            Some(reason) => {
                return SequencePlan {
                    action: SequenceAction::Decline(reason),
                    min_surfaces,
                    decode_surfaces,
                    output_surfaces: self.current_output_surfaces,
                };
            },
            None => {},
        }
        let decoder = self.current_decoder();
        let recreate = decoder.is_none() || self.bit_depth_minus8 != format.bit_depth_luma_minus8
            || self.chroma_format != format.chroma_format;
        let resolution_changed = !(format.coded_width == self.coded_size.0 && format.coded_height
            == self.coded_size.1);
        let crop_changed = !(self.display_area == format.display_area);

        self.codec = format.codec;
        self.chroma_format = format.chroma_format;
        self.bit_depth_minus8 = format.bit_depth_luma_minus8;
        self.bpp = if format.bit_depth_luma_minus8 > 0 {
            2
        } else {
            1
        };
        self.output_format = VideoSurfaceFormat::NV12;
        if !offers(&caps, VideoSurfaceFormat::NV12) {
            return SequencePlan {
                action: SequenceAction::Unsupported,
                min_surfaces,
                decode_surfaces,
                output_surfaces: self.current_output_surfaces,
            };
        }
        let output_surfaces: usize = match self.requested_output_surfaces {
            None => DEFAULT_OUTPUT_SURFACES,
            Some(n) => if n == 0 {
                decode_surfaces
            } else {
                n
            },
        };
        let scales = self.requested_size.0 > 0 && self.requested_size.1 > 0;
        let display_width: u32 = span(format.display_area.left, format.display_area.right);
        let display_height: u32 = span(format.display_area.top, format.display_area.bottom);
        if scales {
            self.out_size = self.requested_size;
            self.coded_size = self.requested_size;
        } else {
            self.out_size = (display_width, display_height);
            self.coded_size = (format.coded_width, format.coded_height);
        }
        self.display_area = format.display_area;
        self.current_output_surfaces = output_surfaces;
        gate.set_bound(output_surfaces);
        self.min_surfaces = min_surfaces;
        self.decode_surfaces = decode_surfaces;
        let display_area = if scales {
            Some(format.display_area)
        } else {
            None
        };

        let action = if recreate {
            self.phase = DecoderPhase::Recreating { retiring: decoder };
            SequenceAction::Recreate(
                DecoderCreateInfo {
                    codec: format.codec,
                    chroma_format: format.chroma_format,
                    output_format: VideoSurfaceFormat::NV12,
                    bit_depth_minus8: format.bit_depth_luma_minus8,
                    deinterlace: if format.progressive_sequence {
                        DeinterlaceMode::Weave
                    } else {
                        DeinterlaceMode::Adaptive
                    },
                    num_decode_surfaces: decode_surfaces,
                    num_output_surfaces: output_surfaces,
                    width: format.coded_width,
                    height: format.coded_height,
                    max_width: format.coded_width,
                    max_height: format.coded_height,
                    target_width: self.out_size.0,
                    target_height: self.out_size.1,
                    intra_decode_only: self.keyframe_only,
                    display_area,
                },
            )
        } else if resolution_changed {
            match decoder {
                Some(decoder) => {
                    self.phase = DecoderPhase::Reconfiguring { decoder };
                },
                None => {},
            }
            SequenceAction::Reconfigure(
                DecoderReconfigureInfo {
                    width: format.coded_width,
                    height: format.coded_height,
                    target_width: if scales {
                        self.requested_size.0
                    } else {
                        format.coded_width
                    },
                    target_height: if scales {
                        self.requested_size.1
                    } else {
                        format.coded_height
                    },
                    num_decode_surfaces: decode_surfaces,
                    display_area,
                },
            )
        } else {
            SequenceAction::Keep { crop_changed }
        };
        SequencePlan { action, min_surfaces, decode_surfaces, output_surfaces }
    }
}

/// The engine's minimum with the fixed headroom added.
pub fn minimum_surfaces(format: &VideoFormat) -> (surfaces: usize)
    ensures
        surfaces == padded_minimum(*format),
        surfaces == format.min_num_decode_surfaces + 3,
{
    format.min_num_decode_surfaces as usize + ADDITIONAL_DECODE_SURFACES
}

/// Number of 16 by 16 macroblocks in a coded picture.
pub fn macroblock_count(format: &VideoFormat) -> (count: u64)
    ensures
        count == macroblocks(*format),
{
    let across: u64 = (format.coded_width >> 4) as u64;
    let down: u64 = (format.coded_height >> 4) as u64;
    proof {
        let w = format.coded_width;
        let h = format.coded_height;
        assert(w >> 4 == w / 16 && w >> 4 < 0x1000_0000) by (bit_vector);
        assert(h >> 4 == h / 16 && h >> 4 < 0x1000_0000) by (bit_vector);
        assert(across * down <= 0x1000_0000 * 0x1000_0000) by (nonlinear_arith)
            requires
                across < 0x1000_0000,
                down < 0x1000_0000,
        ;
    }
    across * down
}

/// The first reason for which the device declines the stream, if any.
pub fn decline_reason(format: &VideoFormat, caps: &DecodeCaps) -> (reason: Option<DeclineReason>)
    ensures
        reason == decline_reason_for(*format, *caps),
        reason is None <==> device_admits(*format, *caps),
{
    if !caps.supported {
        Some(DeclineReason::Unsupported)
    } else if format.coded_width > caps.max_width || format.coded_height > caps.max_height {
        Some(DeclineReason::ResolutionTooLarge)
    } else if macroblock_count(format) > caps.max_mb_count as u64 {
        Some(DeclineReason::TooManyMacroblocks)
    } else {
        None
    }
}

/// Whether the device can decode a stream of this format at all: the codec
/// is supported, and neither the coded size nor the number of macroblocks
/// exceeds the device's limits.
pub fn admits(format: &VideoFormat, caps: &DecodeCaps) -> (admitted: bool)
    ensures
        admitted == device_admits(*format, *caps),
{
    decline_reason(format, caps).is_none()
}

/// Whether the device offers the surface format `output`.
pub fn offers(caps: &DecodeCaps, output: VideoSurfaceFormat) -> (offered: bool)
    ensures
        offered == format_offered(*caps, output),
{
    let bit: u16 = match output {
        VideoSurfaceFormat::NV12 => 0,
        VideoSurfaceFormat::P016 => 1,
        VideoSurfaceFormat::YUV444 => 2,
        VideoSurfaceFormat::YUV444_16 => 3,
    };
    let mask: u16 = caps.output_format_mask;
    proof {
        assert(((mask & (1u16 << bit)) != 0) == ((mask >> bit) & 1 == 1)) by (bit_vector)
            requires
                bit < 16,
        ;
    }
    mask & (1u16 << bit) != 0
}

impl DecoderState {
    /// What the engine is told at the end of a sequence callback: the
    /// negotiated number of decode surfaces where everything went through,
    /// the padded minimum where anything failed.
    pub open spec fn reply_for(self, succeeded: bool) -> usize {
        if succeeded {
            self.decode_surfaces
        } else {
            self.min_surfaces
        }
    }

    /// What the engine is told at the end of a sequence callback.
    pub fn reply(&self, succeeded: bool) -> (surfaces: usize)
        ensures
            surfaces == self.reply_for(succeeded),
    {
        if succeeded {
            self.decode_surfaces
        } else {
            self.min_surfaces
        }
    }

    /// Gives up the action under way because the device context could not be
    /// activated: no decoder was touched, and the one that existed stays.
    pub fn abandon(&mut self) -> (surfaces: usize)
        ensures
            surfaces == old(self).min_surfaces,
            *final(self) == (DecoderState { phase: old(self).fallback_phase(), ..*old(self) }),
            final(self).decoder() == old(self).decoder(),
            final(self).settled(),
    {
        self.phase =
        match self.current_decoder() {
            Some(decoder) => DecoderPhase::Created { decoder },
            None => DecoderPhase::Uninitialized,
        };
        self.min_surfaces
    }

    /// Asks whether the decoder that a recreation replaces may be destroyed.
    /// It may once no frame is mapped any more; until then the answer is
    /// `Wait` and nothing changes.
    pub fn retire(&mut self, gate: &FlightGate) -> (step: Retire)
        ensures
            step == old(self).retire_for(gate.in_flight()),
            *final(self) == old(self).after_retire(gate.in_flight()),
            step matches Retire::Destroy(decoder) ==> gate.in_flight() == 0 && old(self).decoder()
                == Some(decoder) && final(self).decoder() is None,
    {
        match self.phase {
            DecoderPhase::Recreating { retiring: Some(decoder) } => {
                if gate.is_idle() {
                    self.phase = DecoderPhase::Recreating { retiring: None };
                    Retire::Destroy(decoder)
                } else {
                    Retire::Wait
                }
            },
            _ => Retire::Nothing,
        }
    }

    /// Records what became of the attempt to create a decoder: `decoder` is
    /// the new one, or `None` where the engine refused. `context_released`
    /// tells whether the device context could be released afterwards.
    pub fn created(&mut self, decoder: Option<DecoderHandle>, context_released: bool) -> (surfaces:
        usize)
        requires
            old(self).phase == (DecoderPhase::Recreating { retiring: None }),
        ensures
            surfaces == old(self).reply_for(decoder is Some && context_released),
            *final(self) == (DecoderState {
                phase: match decoder {
                    Some(decoder) => DecoderPhase::Created { decoder },
                    None => DecoderPhase::Uninitialized,
                },
                ..*old(self)
            }),
            final(self).decoder() == decoder,
            final(self).settled(),
    {
        match decoder {
            Some(decoder) => {
                self.phase = DecoderPhase::Created { decoder };
                self.reply(context_released)
            },
            None => {
                self.phase = DecoderPhase::Uninitialized;
                self.reply(false)
            },
        }
    }

    /// Records what became of the attempt to reconfigure the decoder. The
    /// decoder stays the same one whether or not the engine accepted.
    pub fn reconfigured(&mut self, accepted: bool, context_released: bool) -> (surfaces: usize)
        requires
            old(self).phase is Reconfiguring,
        ensures
            surfaces == old(self).reply_for(accepted && context_released),
            *final(self) == (DecoderState { phase: old(self).fallback_phase(), ..*old(self) }),
            final(self).decoder() == old(self).decoder(),
            final(self).phase is Created,
    {
        self.phase =
        match self.current_decoder() {
            Some(decoder) => DecoderPhase::Created { decoder },
            None => DecoderPhase::Uninitialized,
        };
        self.reply(accepted && context_released)
    }

    /// What `teardown` answers while `in_flight` frames are mapped.
    pub open spec fn teardown_for(self, in_flight: nat) -> Retire {
        if in_flight > 0 {
            Retire::Wait
        } else {
            match self.decoder() {
                Some(decoder) => Retire::Destroy(decoder),
                None => Retire::Nothing,
            }
        }
    }

    /// Asks whether the decoder may be destroyed for good. While frames are
    /// mapped the answer is `Wait` and nothing changes; after that the
    /// decoder, if any, is handed out for destruction and forgotten.
    pub fn teardown(&mut self, gate: &FlightGate) -> (step: Retire)
        ensures
            step == old(self).teardown_for(gate.in_flight()),
            step is Wait ==> *final(self) == *old(self),
            !(step is Wait) ==> *final(self) == (DecoderState {
                phase: DecoderPhase::Uninitialized,
                ..*old(self)
            }),
            step is Destroy ==> gate.in_flight() == 0,
    {
        if !gate.is_idle() {
            return Retire::Wait;
        }
        let decoder = self.current_decoder();
        self.phase = DecoderPhase::Uninitialized;
        match decoder {
            Some(decoder) => Retire::Destroy(decoder),
            None => Retire::Nothing,
        }
    }
}

/// A change of the coded size alone keeps the decoder: the action is a
/// reconfiguration, and when it is over, accepted or not, the decoder is the
/// one that existed before.
pub proof fn law_resolution_change_preserves_decoder(
    state: DecoderState,
    decoder: DecoderHandle,
    format: VideoFormat,
    caps: DecodeCaps,
)
    requires
        state.phase == (DecoderPhase::Created { decoder }),
        device_admits(format, caps),
        format_offered(caps, VideoSurfaceFormat::NV12),
        format.bit_depth_luma_minus8 == state.bit_depth_minus8,
        format.chroma_format == state.chroma_format,
        state.resolution_changed(format),
    ensures
        state.plan_for(format, Some(caps)).action == SequenceAction::Reconfigure(
            state.reconfigure_info_for(format),
        ),
        state.after_negotiation(format, Some(caps)).phase == (DecoderPhase::Reconfiguring {
            decoder,
        }),
        state.after_negotiation(format, Some(caps)).fallback_phase() == (DecoderPhase::Created {
            decoder,
        }),
{
}

/// A change of the bit depth or of the chroma format replaces the decoder:
/// the action is a recreation, the old decoder is marked for destruction,
/// and it is handed out for destruction only when no frame is in flight.
pub proof fn law_format_change_recreates_decoder(
    state: DecoderState,
    decoder: DecoderHandle,
    format: VideoFormat,
    caps: DecodeCaps,
    in_flight: nat,
)
    requires
        state.phase == (DecoderPhase::Created { decoder }),
        device_admits(format, caps),
        format_offered(caps, VideoSurfaceFormat::NV12),
        format.bit_depth_luma_minus8 != state.bit_depth_minus8 || format.chroma_format
            != state.chroma_format,
    ensures
        state.plan_for(format, Some(caps)).action == SequenceAction::Recreate(
            state.create_info_for(format),
        ),
        state.after_negotiation(format, Some(caps)).phase == (DecoderPhase::Recreating {
            retiring: Some(decoder),
        }),
        in_flight > 0 ==> state.after_negotiation(format, Some(caps)).retire_for(in_flight)
            == Retire::Wait && state.after_negotiation(format, Some(caps)).after_retire(in_flight)
            == state.after_negotiation(format, Some(caps)),
        in_flight == 0 ==> state.after_negotiation(format, Some(caps)).retire_for(in_flight)
            == Retire::Destroy(decoder) && state.after_negotiation(format, Some(caps)).after_retire(
            in_flight,
        ).phase == (DecoderPhase::Recreating { retiring: None }),
{
}

/// The first stream of a decoder always creates one, with nothing to
/// destroy before.
pub proof fn law_first_sequence_creates_decoder(
    state: DecoderState,
    format: VideoFormat,
    caps: DecodeCaps,
)
    requires
        state.phase is Uninitialized,
        device_admits(format, caps),
        format_offered(caps, VideoSurfaceFormat::NV12),
    ensures
        state.plan_for(format, Some(caps)).action == SequenceAction::Recreate(
            state.create_info_for(format),
        ),
        state.after_negotiation(format, Some(caps)).phase == (DecoderPhase::Recreating {
            retiring: None,
        }),
        state.plan_for(format, Some(caps)).decode_surfaces >= format.min_num_decode_surfaces + 3,
{
}

} // verus!
