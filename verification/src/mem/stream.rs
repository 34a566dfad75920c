//! CUDA streams.

use crate::error::{CudaCtx, CudaErrorKind, RvllmError};
use core::marker::PhantomData;
use std::rc::Rc;
use vstd::prelude::*;

verus! {

/// A CUDA stream by its handle; zero in a host build. It belongs to the thread of
/// its worker: it is neither `Send` nor `Sync`.
#[derive(Debug)]
pub struct Stream {
    raw: u64,
    _not_send_sync: PhantomData<Rc<()>>,
}

impl Stream {
    pub closed spec fn handle(self) -> u64 {
        self.raw
    }

    /// The stream with this handle.
    pub fn from_raw(raw: u64) -> (r: Stream)
        ensures
            r.handle() == raw,
    {
        Stream { raw, _not_send_sync: PhantomData }
    }

    /// A stream without a device.
    pub fn host_stub() -> (r: Stream)
        ensures
            r.handle() == 0,
    {
        Stream::from_raw(0)
    }

    pub fn raw(&self) -> (r: u64)
        ensures
            r == self.handle(),
    {
        self.raw
    }

    /// The error of a stream that could not be waited for.
    pub open spec fn fence_error(self) -> RvllmError {
        RvllmError::Cuda {
            op: "cuStreamSynchronize",
            kind: CudaErrorKind::Other,
            ctx: CudaCtx {
                stream: self.handle(),
                kernel: "cuStreamSynchronize",
                launch: None,
                device: -1i32,
            },
        }
    }

    /// What the driver's answer to waiting for the stream means: zero is
    /// success, and a host build has nothing to wait for.
    pub fn fence(&self, rc: Option<u32>) -> (r: Result<(), RvllmError>)
        ensures
            r == if rc is None || rc == Some(0u32) {
                Ok::<(), RvllmError>(())
            } else {
                Err(self.fence_error())
            },
    {
        match rc {
            None => Ok(()),
            Some(code) => {
                if code == 0 {
                    return Ok(());
                }
                Err(
                    RvllmError::cuda(
                        "cuStreamSynchronize",
                        CudaErrorKind::Other,
                        CudaCtx {
                            stream: self.raw,
                            kernel: "cuStreamSynchronize",
                            launch: None,
                            device: -1,
                        },
                    ),
                )
            },
        }
    }
}

} // verus!
