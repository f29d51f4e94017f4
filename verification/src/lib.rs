//! Sequential core of a hardware video decode and encode pipeline.
//!
//! The engine that decodes and encodes runs on its own threads and calls
//! back into its host. Everything the host has to decide in those callbacks
//! (how many surfaces to negotiate, whether a decoder is recreated or
//! reconfigured, when a surface may be reused, in which order encoded
//! pictures reach the consumer) is stated here as verified functions over
//! plain values. The calls into the engine, the locks and the waiting are
//! the caller's.
use vstd::prelude::*;

pub mod cuvid;

verus! {

/// Status with which the driver reports success.
pub const CUDA_SUCCESS: u32 = 0;

/// Status with which the image library reports success.
pub const NPP_SUCCESS: i32 = 0;

/// A status of the device driver.
pub trait CudaResult: Sized {
    /// The status reports success.
    spec fn is_success(&self) -> bool;

    /// Whether the status reports success.
    fn ok(&self) -> (ok: bool)
        ensures
            ok == self.is_success(),
    ;

    /// `Ok` for success, else the status itself as the error.
    fn err(&self) -> (outcome: Result<(), Self>)
        ensures
            outcome == if self.is_success() {
                Ok::<(), Self>(())
            } else {
                Err::<(), Self>(*self)
            },
    ;
}

impl CudaResult for u32 {
    open spec fn is_success(&self) -> bool {
        *self == CUDA_SUCCESS
    }

    fn ok(&self) -> (ok: bool) {
        *self == CUDA_SUCCESS
    }

    fn err(&self) -> (outcome: Result<(), Self>) {
        if *self == CUDA_SUCCESS {
            Ok(())
        } else {
            Err(*self)
        }
    }
}

/// A status of the image processing library.
pub trait NppResult: Sized {
    /// The status reports success.
    spec fn is_success(&self) -> bool;

    /// Whether the status reports success.
    fn ok(&self) -> (ok: bool)
        ensures
            ok == self.is_success(),
    ;

    /// `Ok` for success, else the status itself as the error.
    fn err(&self) -> (outcome: Result<(), Self>)
        ensures
            outcome == if self.is_success() {
                Ok::<(), Self>(())
            } else {
                Err::<(), Self>(*self)
            },
    ;
}

impl NppResult for i32 {
    open spec fn is_success(&self) -> bool {
        *self == NPP_SUCCESS
    }

    fn ok(&self) -> (ok: bool) {
        *self == NPP_SUCCESS
    }

    fn err(&self) -> (outcome: Result<(), Self>) {
        if *self == NPP_SUCCESS {
            Ok(())
        } else {
            Err(*self)
        }
    }
}

/// Byte offset of the chroma plane of an NV12 picture from its luma plane:
/// `height` rows of `pitch` bytes. `None` where the offset does not fit the
/// 32-bit number in which the image library takes it.
pub fn nv12_chroma_offset(pitch: i32, height: u32) -> (offset: Option<i32>)
    ensures
        offset == if i32::MIN <= pitch * height <= i32::MAX {
            Some((pitch * height) as i32)
        } else {
            None::<i32>
        },
{
    assert(-0x8000_0000 * 0xffff_ffff <= pitch * height <= 0x7fff_ffff * 0xffff_ffff)
        by (nonlinear_arith)
        requires
            -0x8000_0000 <= pitch <= 0x7fff_ffff,
            0 <= height <= 0xffff_ffff,
    ;
    let product: i64 = pitch as i64 * height as i64;
    if product < i32::MIN as i64 || product > i32::MAX as i64 {
        None
    } else {
        Some(product as i32)
    }
}

} // verus!
