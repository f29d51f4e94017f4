//! Decode and encode coordination.
use vstd::prelude::*;

pub mod channel;
pub mod chroma;
pub mod codec;
pub mod decoder;
pub mod encoder;
pub mod gate;
pub mod gpu_frame;
pub mod picture;
pub mod pool;
pub mod surface;
pub mod tracker;

pub use self::chroma::VideoChromaFormat;
pub use self::codec::Codec;
pub use self::gate::FlightGate;
pub use self::surface::VideoSurfaceFormat;
pub use self::tracker::FrameTracker;

verus! {

/// Rate control of an encode session.
#[derive(Clone, Copy, Debug)]
pub enum Bitrate {
    /// Constant quantiser.
    CQP,
    /// Constant bit rate, in bits per second.
    CBR(u32),
    /// Variable bit rate with this average, in bits per second.
    VBR(u32),
}

} // verus!
