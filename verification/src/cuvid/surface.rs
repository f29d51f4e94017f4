//! Pixel layout of a decoded output surface.
use vstd::prelude::*;
use vstd::std_specs::convert::FromSpecImpl;

verus! {

/// Layout of the surfaces that the decoder hands out.
#[allow(non_camel_case_types)]
#[derive(Clone, Copy, Debug, PartialEq, Eq, Structural)]
pub enum VideoSurfaceFormat {
    NV12,
    P016,
    YUV444,
    YUV444_16,
}

impl VideoSurfaceFormat {
    /// The number by which the engine names this layout.
    pub open spec fn code(self) -> u32 {
        match self {
            VideoSurfaceFormat::NV12 => 0,
            VideoSurfaceFormat::P016 => 1,
            VideoSurfaceFormat::YUV444 => 2,
            VideoSurfaceFormat::YUV444_16 => 3,
        }
    }

    /// The layout that the engine names by `raw`, if there is one.
    pub open spec fn decode(raw: u32) -> Option<Self> {
        if raw == 0 {
            Some(VideoSurfaceFormat::NV12)
        } else if raw == 1 {
            Some(VideoSurfaceFormat::P016)
        } else if raw == 2 {
            Some(VideoSurfaceFormat::YUV444)
        } else if raw == 3 {
            Some(VideoSurfaceFormat::YUV444_16)
        } else {
            None
        }
    }

    /// The number by which the engine names this layout.
    pub fn raw(self) -> (raw: u32)
        ensures
            raw == self.code(),
    {
        match self {
            VideoSurfaceFormat::NV12 => 0,
            VideoSurfaceFormat::P016 => 1,
            VideoSurfaceFormat::YUV444 => 2,
            VideoSurfaceFormat::YUV444_16 => 3,
        }
    }

    /// Reads a layout from the engine's number; `None` for a number that
    /// names no layout.
    pub fn from_raw(raw: u32) -> (format: Option<Self>)
        ensures
            format == Self::decode(raw),
            format matches Some(f) ==> f.code() == raw,
            format is None ==> forall|f: Self| f.code() != raw,
    {
        match raw {
            0 => Some(VideoSurfaceFormat::NV12),
            1 => Some(VideoSurfaceFormat::P016),
            2 => Some(VideoSurfaceFormat::YUV444),
            3 => Some(VideoSurfaceFormat::YUV444_16),
            _ => None,
        }
    }
}

impl From<VideoSurfaceFormat> for u32 {
    fn from(format: VideoSurfaceFormat) -> (raw: u32) {
        format.raw()
    }
}

impl FromSpecImpl<VideoSurfaceFormat> for u32 {
    open spec fn obeys_from_spec() -> bool {
        true
    }

    open spec fn from_spec(format: VideoSurfaceFormat) -> u32 {
        format.code()
    }
}

/// Every layout is read back from its own number.
pub proof fn law_surface_code_round_trip(format: VideoSurfaceFormat)
    ensures
        VideoSurfaceFormat::decode(format.code()) == Some(format),
{
}

} // verus!
