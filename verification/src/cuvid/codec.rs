//! Video codecs and raw picture layouts that the engine names.
use vstd::prelude::*;
use vstd::std_specs::convert::FromSpecImpl;

verus! {

/// Codec of a coded stream, or layout of an uncompressed one.
#[derive(Clone, Copy, Debug, PartialEq, Eq, Structural)]
pub enum Codec {
    MPEG1,
    MPEG2,
    VC1,
    H264,
    JPEG,
    H264Svc,
    H264Mvc,
    HEVC,
    VP8,
    VP9,
    AV1,
    YUV420,
    YV12,
    NV12,
    YUYV,
    UYVY,
}

impl Codec {
    /// The number by which the engine names this codec. The uncompressed
    /// layouts are named by their four-character codes.
    pub open spec fn code(self) -> u32 {
        match self {
            Codec::MPEG1 => 0,
            Codec::MPEG2 => 1,
            Codec::VC1 => 3,
            Codec::H264 => 4,
            Codec::JPEG => 5,
            Codec::H264Svc => 6,
            Codec::H264Mvc => 7,
            Codec::HEVC => 8,
            Codec::VP8 => 9,
            Codec::VP9 => 10,
            Codec::AV1 => 11,
            Codec::YUV420 => 0x4959_5556,
            Codec::YV12 => 0x5956_3132,
            Codec::NV12 => 0x4E56_3132,
            Codec::YUYV => 0x5955_5956,
            Codec::UYVY => 0x5559_5659,
        }
    }

    /// The codec that the engine names by `raw`, if this library knows it.
    pub open spec fn decode(raw: u32) -> Option<Self> {
        if raw == 0 {
            Some(Codec::MPEG1)
        } else if raw == 1 {
            Some(Codec::MPEG2)
        } else if raw == 3 {
            Some(Codec::VC1)
        } else if raw == 4 {
            Some(Codec::H264)
        } else if raw == 5 {
            Some(Codec::JPEG)
        } else if raw == 6 {
            Some(Codec::H264Svc)
        } else if raw == 7 {
            Some(Codec::H264Mvc)
        } else if raw == 8 {
            Some(Codec::HEVC)
        } else if raw == 9 {
            Some(Codec::VP8)
        } else if raw == 10 {
            Some(Codec::VP9)
        } else if raw == 11 {
            Some(Codec::AV1)
        } else if raw == 0x4959_5556 {
            Some(Codec::YUV420)
        } else if raw == 0x5956_3132 {
            Some(Codec::YV12)
        } else if raw == 0x4E56_3132 {
            Some(Codec::NV12)
        } else if raw == 0x5955_5956 {
            Some(Codec::YUYV)
        } else if raw == 0x5559_5659 {
            Some(Codec::UYVY)
        } else {
            None
        }
    }

    /// Whether this is one of the H.264 family.
    pub open spec fn is_h264_family(self) -> bool {
        self == Codec::H264 || self == Codec::H264Mvc || self == Codec::H264Svc
    }

    /// The number by which the engine names this codec.
    pub fn raw(self) -> (raw: u32)
        ensures
            raw == self.code(),
    {
        match self {
            Codec::MPEG1 => 0,
            Codec::MPEG2 => 1,
            Codec::VC1 => 3,
            Codec::H264 => 4,
            Codec::JPEG => 5,
            Codec::H264Svc => 6,
            Codec::H264Mvc => 7,
            Codec::HEVC => 8,
            Codec::VP8 => 9,
            Codec::VP9 => 10,
            Codec::AV1 => 11,
            Codec::YUV420 => 0x4959_5556,
            Codec::YV12 => 0x5956_3132,
            Codec::NV12 => 0x4E56_3132,
            Codec::YUYV => 0x5955_5956,
            Codec::UYVY => 0x5559_5659,
        }
    }

    /// Reads a codec from the engine's number; `None` for a number that
    /// names no codec of this library.
    pub fn from_raw(raw: u32) -> (codec: Option<Self>)
        ensures
            codec == Self::decode(raw),
            codec matches Some(c) ==> c.code() == raw,
            codec is None ==> forall|c: Self| c.code() != raw,
    {
        match raw {
            0 => Some(Codec::MPEG1),
            1 => Some(Codec::MPEG2),
            3 => Some(Codec::VC1),
            4 => Some(Codec::H264),
            5 => Some(Codec::JPEG),
            6 => Some(Codec::H264Svc),
            7 => Some(Codec::H264Mvc),
            8 => Some(Codec::HEVC),
            9 => Some(Codec::VP8),
            10 => Some(Codec::VP9),
            11 => Some(Codec::AV1),
            0x4959_5556 => Some(Codec::YUV420),
            0x5956_3132 => Some(Codec::YV12),
            0x4E56_3132 => Some(Codec::NV12),
            0x5955_5956 => Some(Codec::YUYV),
            0x5559_5659 => Some(Codec::UYVY),
            _ => None,
        }
    }
}

impl From<Codec> for u32 {
    fn from(codec: Codec) -> (raw: u32) {
        codec.raw()
    }
}

impl FromSpecImpl<Codec> for u32 {
    open spec fn obeys_from_spec() -> bool {
        true
    }

    open spec fn from_spec(codec: Codec) -> u32 {
        codec.code()
    }
}

/// Every codec is read back from its own number.
pub proof fn law_codec_code_round_trip(codec: Codec)
    ensures
        Codec::decode(codec.code()) == Some(codec),
{
}

} // verus!
