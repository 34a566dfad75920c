//! The CUDA context: what is asked of the driver, in which order, and what its
//! answers mean.
//!
//! The primary context of the device is retained and made current; there is one
//! context for the life of the process.

use crate::arch::Build;
use crate::error::{CudaCtx, CudaErrorKind, RvllmError};
use core::marker::PhantomData;
use std::rc::Rc;
use vstd::prelude::*;

verus! {

/// A device and its context. It belongs to the thread that created it: it is
/// neither `Send` nor `Sync`.
#[derive(Debug)]
pub struct CudaContextHandle {
    pub device: i32,
    /// The driver's device; zero without one.
    pub cu_device: i32,
    /// The driver's context; null without one.
    pub ctx: u64,
    /// Compute capability, asked once: it cannot change.
    pub compute_cap: (i32, i32),
    pub _not_send_sync: PhantomData<Rc<()>>,
}

/// The error of a driver call that failed.
pub open spec fn driver_error(driver_call: &'static str, device: i32) -> RvllmError {
    RvllmError::Cuda {
        op: driver_call,
        kind: CudaErrorKind::Other,
        ctx: CudaCtx { stream: 0, kernel: driver_call, launch: None, device },
    }
}

/// The error of a driver call that failed. There is no kernel behind it: the
/// call's name stands for both.
pub fn cuda_err(driver_call: &'static str, device: i32) -> (r: RvllmError)
    ensures
        r == driver_error(driver_call, device),
{
    RvllmError::cuda(
        driver_call,
        CudaErrorKind::Other,
        CudaCtx { stream: 0, kernel: driver_call, launch: None, device },
    )
}

/// A driver call of the initialization.
#[derive(Copy, Clone, Debug, PartialEq, Eq, Structural)]
pub enum DriverCall {
    Init,
    DeviceGet,
    CcMajor,
    CcMinor,
    PrimaryCtxRetain,
    CtxSetCurrent,
}

impl DriverCall {
    /// The name that an error on the call carries.
    pub open spec fn op(self) -> &'static str {
        match self {
            DriverCall::Init => "cuInit",
            DriverCall::DeviceGet => "cuDeviceGet",
            DriverCall::CcMajor => "cuDeviceGetAttribute(CC_MAJOR)",
            DriverCall::CcMinor => "cuDeviceGetAttribute(CC_MINOR)",
            DriverCall::PrimaryCtxRetain => "cuDevicePrimaryCtxRetain",
            DriverCall::CtxSetCurrent => "cuCtxSetCurrent",
        }
    }

    fn name(self) -> (r: &'static str)
        ensures
            r == self.op(),
    {
        match self {
            DriverCall::Init => "cuInit",
            DriverCall::DeviceGet => "cuDeviceGet",
            DriverCall::CcMajor => "cuDeviceGetAttribute(CC_MAJOR)",
            DriverCall::CcMinor => "cuDeviceGetAttribute(CC_MINOR)",
            DriverCall::PrimaryCtxRetain => "cuDevicePrimaryCtxRetain",
            DriverCall::CtxSetCurrent => "cuCtxSetCurrent",
        }
    }
}

/// How far an initialization has come: the call to be made, and what the calls
/// before it have answered.
#[derive(Debug)]
pub struct ContextInit {
    pub call: DriverCall,
    pub handle: CudaContextHandle,
}

/// What comes next.
#[derive(Debug)]
pub enum InitStep {
    /// Make the call and answer it.
    Call(ContextInit),
    /// The context is current.
    Ready(CudaContextHandle),
    /// A call failed. Where a reference on the primary context of `release` was
    /// taken, it is to be given back.
    Failed { err: RvllmError, release: Option<i32> },
}

/// The driver's answer to a call: its code, and what it returned besides.
#[derive(Copy, Clone, Debug, PartialEq, Eq, Structural)]
pub enum DriverAnswer {
    Failed,
    Done,
    Number(i32),
    Context(u64),
}

impl ContextInit {
    /// The number that an answer holds; zero where it holds none.
    pub open spec fn number(answer: DriverAnswer) -> i32 {
        match answer {
            DriverAnswer::Number(n) => n,
            _ => 0,
        }
    }

    /// The context that an answer holds; null where it holds none.
    pub open spec fn context(answer: DriverAnswer) -> u64 {
        match answer {
            DriverAnswer::Context(c) => c,
            _ => 0,
        }
    }

    /// What comes after an answer.
    pub open spec fn next(self, answer: DriverAnswer) -> InitStep {
        let h = self.handle;
        if answer is Failed {
            InitStep::Failed {
                err: driver_error(self.call.op(), h.device),
                release: if self.call is CtxSetCurrent {
                    Some(h.cu_device)
                } else {
                    None
                },
            }
        } else {
            match self.call {
                DriverCall::Init => InitStep::Call(
                    ContextInit { call: DriverCall::DeviceGet, handle: h },
                ),
                DriverCall::DeviceGet => InitStep::Call(
                    ContextInit {
                        call: DriverCall::CcMajor,
                        handle: CudaContextHandle { cu_device: Self::number(answer), ..h },
                    },
                ),
                DriverCall::CcMajor => InitStep::Call(
                    ContextInit {
                        call: DriverCall::CcMinor,
                        handle: CudaContextHandle {
                            compute_cap: (Self::number(answer), h.compute_cap.1),
                            ..h
                        },
                    },
                ),
                DriverCall::CcMinor => InitStep::Call(
                    ContextInit {
                        call: DriverCall::PrimaryCtxRetain,
                        handle: CudaContextHandle {
                            compute_cap: (h.compute_cap.0, Self::number(answer)),
                            ..h
                        },
                    },
                ),
                DriverCall::PrimaryCtxRetain => InitStep::Call(
                    ContextInit {
                        call: DriverCall::CtxSetCurrent,
                        handle: CudaContextHandle { ctx: Self::context(answer), ..h },
                    },
                ),
                DriverCall::CtxSetCurrent => InitStep::Ready(h),
            }
        }
    }

    /// Takes the driver's answer to the call.
    pub fn answered(self, answer: DriverAnswer) -> (r: InitStep)
        ensures
            r == self.next(answer),
    {
        let h = self.handle;
        if let DriverAnswer::Failed = answer {
            let release = match self.call {
                DriverCall::CtxSetCurrent => Some(h.cu_device),
                _ => None,
            };
            return InitStep::Failed { err: cuda_err(self.call.name(), h.device), release };
        }
        let number: i32 = match answer {
            DriverAnswer::Number(n) => n,
            _ => 0,
        };
        let context: u64 = match answer {
            DriverAnswer::Context(c) => c,
            _ => 0,
        };
        match self.call {
            DriverCall::Init => InitStep::Call(
                ContextInit { call: DriverCall::DeviceGet, handle: h },
            ),
            DriverCall::DeviceGet => InitStep::Call(
                ContextInit {
                    call: DriverCall::CcMajor,
                    handle: CudaContextHandle {
                        device: h.device,
                        cu_device: number,
                        ctx: h.ctx,
                        compute_cap: h.compute_cap,
                        _not_send_sync: PhantomData,
                    },
                },
            ),
            DriverCall::CcMajor => InitStep::Call(
                ContextInit {
                    call: DriverCall::CcMinor,
                    handle: CudaContextHandle {
                        device: h.device,
                        cu_device: h.cu_device,
                        ctx: h.ctx,
                        compute_cap: (number, h.compute_cap.1),
                        _not_send_sync: PhantomData,
                    },
                },
            ),
            DriverCall::CcMinor => InitStep::Call(
                ContextInit {
                    call: DriverCall::PrimaryCtxRetain,
                    handle: CudaContextHandle {
                        device: h.device,
                        cu_device: h.cu_device,
                        ctx: h.ctx,
                        compute_cap: (h.compute_cap.0, number),
                        _not_send_sync: PhantomData,
                    },
                },
            ),
            DriverCall::PrimaryCtxRetain => InitStep::Call(
                ContextInit {
                    call: DriverCall::CtxSetCurrent,
                    handle: CudaContextHandle {
                        device: h.device,
                        cu_device: h.cu_device,
                        ctx: context,
                        compute_cap: h.compute_cap,
                        _not_send_sync: PhantomData,
                    },
                },
            ),
            DriverCall::CtxSetCurrent => InitStep::Ready(h),
        }
    }
}

impl CudaContextHandle {
    /// Starts the initialization of a device. A host build asks no driver.
    pub fn init(build: Build, device: i32) -> (r: InitStep)
        ensures
            ({
                let handle = CudaContextHandle {
                    device,
                    cu_device: 0,
                    ctx: 0,
                    compute_cap: (0, 0),
                    _not_send_sync: PhantomData,
                };
                r == match build {
                    Build::Cuda => InitStep::Call(ContextInit { call: DriverCall::Init, handle }),
                    Build::Host => InitStep::Ready(handle),
                }
            }),
    {
        let handle = CudaContextHandle {
            device,
            cu_device: 0,
            ctx: 0,
            compute_cap: (0, 0),
            _not_send_sync: PhantomData,
        };
        match build {
            Build::Cuda => InitStep::Call(ContextInit { call: DriverCall::Init, handle }),
            Build::Host => InitStep::Ready(handle),
        }
    }

    /// A handle without a device. Its compute capability is that of no target.
    pub fn host_stub() -> (r: CudaContextHandle)
        ensures
            r == (CudaContextHandle {
                device: -1i32,
                cu_device: 0,
                ctx: 0,
                compute_cap: (0, 0),
                _not_send_sync: PhantomData,
            }),
    {
        CudaContextHandle {
            device: -1,
            cu_device: 0,
            ctx: 0,
            compute_cap: (0, 0),
            _not_send_sync: PhantomData,
        }
    }

    #[must_use]
    pub fn device(&self) -> (r: i32)
        ensures
            r == self.device,
    {
        self.device
    }

    /// Compute capability, major and minor, as it was read at initialization.
    #[must_use]
    pub fn compute_capability(&self) -> (r: (i32, i32))
        ensures
            r == self.compute_cap,
    {
        self.compute_cap
    }
}

/// The outcome of answering every call of an initialization with success.
pub proof fn initialization_succeeds(
    device: i32,
    cu_device: i32,
    major: i32,
    minor: i32,
    ctx: u64,
)
    ensures
        ({
            let h = CudaContextHandle {
                device,
                cu_device: 0,
                ctx: 0,
                compute_cap: (0, 0),
                _not_send_sync: PhantomData,
            };
            let s0 = ContextInit { call: DriverCall::Init, handle: h };
            let s1 = s0.next(DriverAnswer::Done);
            let s2 = s1->Call_0.next(DriverAnswer::Number(cu_device));
            let s3 = s2->Call_0.next(DriverAnswer::Number(major));
            let s4 = s3->Call_0.next(DriverAnswer::Number(minor));
            let s5 = s4->Call_0.next(DriverAnswer::Context(ctx));
            let s6 = s5->Call_0.next(DriverAnswer::Done);
            &&& s1 is Call && s2 is Call && s3 is Call && s4 is Call && s5 is Call
            &&& s6 == InitStep::Ready(
                CudaContextHandle {
                    device,
                    cu_device,
                    ctx,
                    compute_cap: (major, minor),
                    _not_send_sync: PhantomData,
                },
            )
        }),
{
}

/// A reference on the primary context is given back exactly where it was taken
/// and the context could not be made current.
pub proof fn no_reference_is_leaked(init: ContextInit, answer: DriverAnswer)
    ensures
        init.next(answer) matches InitStep::Failed { release, .. } ==> (release is Some
            <==> init.call is CtxSetCurrent),
{
}

/// No kernels are built for a handle without a device.
pub proof fn stub_has_no_target(t: crate::arch::CompileTarget)
    ensures
        t.capability() != (0i32, 0i32),
{
}

} // verus!
