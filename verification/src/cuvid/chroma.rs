//! Chroma subsampling of a video stream.
use vstd::prelude::*;
use vstd::std_specs::convert::FromSpecImpl;

verus! {

/// Chroma format of a coded stream.
#[derive(Clone, Copy, Debug, PartialEq, Eq, Structural)]
pub enum VideoChromaFormat {
    Monochrome,
    YUV420,
    YUV422,
    YUV444,
}

impl VideoChromaFormat {
    /// The number by which the engine names this format.
    pub open spec fn code(self) -> u32 {
        match self {
            VideoChromaFormat::Monochrome => 0,
            VideoChromaFormat::YUV420 => 1,
            VideoChromaFormat::YUV422 => 2,
            VideoChromaFormat::YUV444 => 3,
        }
    }

    /// The format that the engine names by `raw`, if there is one.
    pub open spec fn decode(raw: u32) -> Option<Self> {
        if raw == 0 {
            Some(VideoChromaFormat::Monochrome)
        } else if raw == 1 {
            Some(VideoChromaFormat::YUV420)
        } else if raw == 2 {
            Some(VideoChromaFormat::YUV422)
        } else if raw == 3 {
            Some(VideoChromaFormat::YUV444)
        } else {
            None
        }
    }

    /// The number by which the engine names this format.
    pub fn raw(self) -> (raw: u32)
        ensures
            raw == self.code(),
    {
        match self {
            VideoChromaFormat::Monochrome => 0,
            VideoChromaFormat::YUV420 => 1,
            VideoChromaFormat::YUV422 => 2,
            VideoChromaFormat::YUV444 => 3,
        }
    }

    /// Reads a format from the engine's number; `None` for a number that
    /// names no format.
    pub fn from_raw(raw: u32) -> (format: Option<Self>)
        ensures
            format == Self::decode(raw),
            format matches Some(f) ==> f.code() == raw,
            format is None ==> forall|f: Self| f.code() != raw,
    {
        match raw {
            0 => Some(VideoChromaFormat::Monochrome),
            1 => Some(VideoChromaFormat::YUV420),
            2 => Some(VideoChromaFormat::YUV422),
            3 => Some(VideoChromaFormat::YUV444),
            _ => None,
        }
    }
}

impl From<VideoChromaFormat> for u32 {
    fn from(format: VideoChromaFormat) -> (raw: u32) {
        format.raw()
    }
}

impl FromSpecImpl<VideoChromaFormat> for u32 {
    open spec fn obeys_from_spec() -> bool {
        true
    }

    open spec fn from_spec(format: VideoChromaFormat) -> u32 {
        format.code()
    }
}

/// Every format is read back from its own number.
pub proof fn law_chroma_code_round_trip(format: VideoChromaFormat)
    ensures
        VideoChromaFormat::decode(format.code()) == Some(format),
{
}

} // verus!
