//! Mapped frames: what the consumer holds between mapping a surface and
//! releasing it.
use vstd::prelude::*;

use super::decoder::DecoderHandle;
use super::gate::FlightGate;
use super::picture::PreparedFrame;
use super::tracker::{FrameTracker, MAX_SURFACES};

verus! {

/// Decode status with which the engine reports an error it could not hide.
pub const DECODE_STATUS_ERROR: u32 = 8;

/// Decode status with which the engine reports an error it concealed.
pub const DECODE_STATUS_ERROR_CONCEALED: u32 = 9;

/// What a decode status says of errors: `Some(true)` for a concealed error,
/// `Some(false)` for one that shows, `None` for no error or no status.
pub open spec fn concealment(status: Option<u32>) -> Option<bool> {
    match status {
        Some(code) => if code == DECODE_STATUS_ERROR {
            Some(false)
        } else if code == DECODE_STATUS_ERROR_CONCEALED {
            Some(true)
        } else {
            None
        },
        None => None,
    }
}

/// Reads a decode status; `None` stands for a status that could not be
/// queried.
pub fn classify_decode_status(status: Option<u32>) -> (concealed: Option<bool>)
    ensures
        concealed == concealment(status),
{
    match status {
        Some(code) => if code == DECODE_STATUS_ERROR {
            Some(false)
        } else if code == DECODE_STATUS_ERROR_CONCEALED {
            Some(true)
        } else {
            None
        },
        None => None,
    }
}

/// What the engine answered to the request to map a surface.
#[derive(Clone, Copy, Debug, PartialEq, Eq, Structural)]
pub enum MapOutcome {
    /// The device context could not be activated.
    ContextUnavailable,
    /// The engine refused to map the surface.
    MapFailed,
    /// The surface is mapped at `ptr` with rows of `pitch` bytes; `status`
    /// is its decode status where that could be queried.
    Mapped { ptr: u64, pitch: u32, status: Option<u32> },
}

/// A mapped surface in the consumer's hands.
#[derive(Debug, PartialEq, Eq, Structural)]
pub struct GpuFrame {
    pub width: u32,
    pub height: u32,
    pub pitch: u32,
    pub timestamp: i64,
    /// `Some(true)` for a concealed decode error, `Some(false)` for one that
    /// shows.
    pub has_concealed_error: Option<bool>,
    /// Device address of the mapped surface.
    pub ptr: u64,
    /// Index of the decode surface.
    pub idx: i32,
    /// The decoder that the surface belongs to.
    pub decoder: DecoderHandle,
}

/// What is left to do with the engine when a frame is released.
#[derive(Clone, Copy, Debug, PartialEq, Eq, Structural)]
pub struct Unmap {
    pub decoder: DecoderHandle,
    pub ptr: u64,
}

impl GpuFrame {
    /// The frame names a surface that a tracker can follow.
    pub open spec fn wf(self) -> bool {
        0 <= self.idx < MAX_SURFACES
    }

    /// The frame that results from mapping `frame` with the answer `mapped`.
    pub open spec fn mapped_from(
        decoder: DecoderHandle,
        out_size: (u32, u32),
        frame: PreparedFrame,
        outcome: MapOutcome,
    ) -> Option<GpuFrame> {
        match outcome {
            MapOutcome::Mapped { ptr, pitch, status } => Some(
                GpuFrame {
                    width: out_size.0,
                    height: out_size.1,
                    pitch,
                    timestamp: frame.timestamp,
                    has_concealed_error: concealment(status),
                    ptr,
                    idx: frame.index,
                    decoder,
                },
            ),
            _ => None,
        }
    }

    /// Concludes the mapping of `frame`, for which a flight slot was
    /// acquired before the engine was asked. Where the engine mapped the
    /// surface the frame is handed out and keeps the slot; a decode error is
    /// attached to it and never fails the mapping. Where the device context
    /// could not be activated or the engine refused, the slot is given back
    /// and there is no frame.
    pub fn map(
        gate: &mut FlightGate,
        decoder: DecoderHandle,
        out_size: (u32, u32),
        frame: PreparedFrame,
        outcome: MapOutcome,
    ) -> (mapped: Option<GpuFrame>)
        requires
            old(gate).in_flight() > 0,
        ensures
            mapped == Self::mapped_from(decoder, out_size, frame, outcome),
            mapped is Some ==> *final(gate) == *old(gate),
            mapped is None ==> FlightGate::release_step(*old(gate), *final(gate)),
            mapped is Some <==> outcome is Mapped,
            old(gate).within_bound() ==> final(gate).within_bound(),
    {
        match outcome {
            MapOutcome::Mapped { ptr, pitch, status } => Some(
                GpuFrame {
                    width: out_size.0,
                    height: out_size.1,
                    pitch,
                    timestamp: frame.timestamp,
                    has_concealed_error: classify_decode_status(status),
                    ptr,
                    idx: frame.index,
                    decoder,
                },
            ),
            _ => {
                gate.release();
                None
            },
        }
    }

    /// Releases the frame: its flight slot is given back and its decode
    /// surface is free again. What comes back names the mapping that the
    /// engine has to undo.
    pub fn release(self, gate: &mut FlightGate, tracker: &mut FrameTracker) -> (unmap: Unmap)
        requires
            self.wf(),
            old(gate).in_flight() > 0,
        ensures
            unmap == (Unmap { decoder: self.decoder, ptr: self.ptr }),
            FlightGate::release_step(*old(gate), *final(gate)),
            old(gate).within_bound() ==> final(gate).within_bound() && !final(gate).saturated(),
            final(tracker)@ == old(tracker)@.remove(self.idx as int),
    {
        gate.release();
        tracker.mark_free(self.idx as usize);
        Unmap { decoder: self.decoder, ptr: self.ptr }
    }
}

} // verus!
