//! What owns a CUDA handle must know that its stream is idle before the handle
//! is destroyed.

use crate::mem::stream::Stream;
use vstd::prelude::*;

verus! {

/// An owner of a CUDA handle.
pub trait CudaOwned: Sized {
    /// The stream that the handle's work runs on.
    fn stream_for_fence(&self) -> &Stream;

    /// Called when the owner is dropped, with the driver's answer to waiting for
    /// the stream. The handle is destroyed in any case; the result says whether
    /// the stream was idle by then.
    fn fence_then_destroy(&mut self, rc: Option<u32>) -> (idle: bool)
        ensures
            *final(self) == *old(self),
            idle == (rc is None || rc == Some(0u32)),
    {
        self.stream_for_fence().fence(rc).is_ok()
    }
}

} // verus!
