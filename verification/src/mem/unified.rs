//! The arena of devices that share memory with the host. The slab is managed
//! memory that prefers to live with the device; everything else is as in
//! `HbmArena`.

use crate::error::{CudaCtx, CudaErrorKind, RvllmError};
use crate::mem::context::CudaContextHandle;
use crate::mem::hbm::{no_room, ArenaView, HbmArena, Region, STUB_BASE};
use vstd::prelude::*;

verus! {

/// An arena over managed memory. It is a type of its own, so that the two kinds
/// of arena cannot be mixed up.
#[derive(Debug)]
pub struct UnifiedArena<'ctx> {
    inner: HbmArena<'ctx>,
}

/// What came of asking the driver for managed memory.
#[derive(Copy, Clone, Debug, PartialEq, Eq, Structural)]
pub enum ManagedAlloc {
    /// This build has no driver to ask.
    NoDriver,
    Failed,
    /// The address of the slab. The advice on where its pages should live may
    /// have failed; without it they move on first use.
    Allocated(u64),
}

impl<'ctx> View for UnifiedArena<'ctx> {
    type V = ArenaView;

    closed spec fn view(&self) -> ArenaView {
        self.inner@
    }
}

impl<'ctx> UnifiedArena<'ctx> {
    /// An arena over `bytes` of managed memory. Without a driver there is no
    /// such arena: a stub would only fail later, in a kernel.
    pub fn new(ctx: &CudaContextHandle, bytes: usize, alloc: ManagedAlloc) -> (r: Result<
        UnifiedArena<'ctx>,
        RvllmError,
    >)
        requires
            alloc matches ManagedAlloc::Allocated(base) ==> base + bytes <= u64::MAX,
        ensures
            match alloc {
                ManagedAlloc::NoDriver => r == Err::<UnifiedArena<'ctx>, RvllmError>(
                    RvllmError::Cuda {
                        op: "UnifiedArena::new",
                        kind: CudaErrorKind::Other,
                        ctx: CudaCtx {
                            stream: 0,
                            kernel: "UnifiedArena::new",
                            launch: None,
                            device: ctx.device,
                        },
                    },
                ),
                ManagedAlloc::Failed => r == Err::<UnifiedArena<'ctx>, RvllmError>(
                    RvllmError::Cuda {
                        op: "UnifiedArena::new (cuMemAllocManaged)",
                        kind: CudaErrorKind::AllocFailed,
                        ctx: CudaCtx {
                            stream: 0,
                            kernel: "cuMemAllocManaged",
                            launch: None,
                            device: ctx.device,
                        },
                    },
                ),
                ManagedAlloc::Allocated(base) => r is Ok && r->Ok_0@ == (ArenaView {
                    base: base as nat,
                    capacity: bytes as nat,
                    used: 0,
                }) && r->Ok_0@.wf(),
            },
    {
        match alloc {
            ManagedAlloc::NoDriver => Err(
                RvllmError::cuda(
                    "UnifiedArena::new",
                    CudaErrorKind::Other,
                    CudaCtx {
                        stream: 0,
                        kernel: "UnifiedArena::new",
                        launch: None,
                        device: ctx.device(),
                    },
                ),
            ),
            ManagedAlloc::Failed => Err(
                RvllmError::cuda(
                    "UnifiedArena::new (cuMemAllocManaged)",
                    CudaErrorKind::AllocFailed,
                    CudaCtx {
                        stream: 0,
                        kernel: "cuMemAllocManaged",
                        launch: None,
                        device: ctx.device(),
                    },
                ),
            ),
            ManagedAlloc::Allocated(base) => Ok(
                UnifiedArena { inner: HbmArena::from_raw_parts(base, bytes) },
            ),
        }
    }

    /// An arena over no memory, for its bookkeeping alone.
    pub fn host_stub(bytes: usize) -> (r: UnifiedArena<'ctx>)
        requires
            STUB_BASE + bytes <= u64::MAX,
        ensures
            r@ == (ArenaView { base: STUB_BASE as nat, capacity: bytes as nat, used: 0 }),
            r@.wf(),
    {
        UnifiedArena { inner: HbmArena::new_host_stub(bytes) }
    }

    pub fn capacity(&self) -> (r: usize)
        ensures
            r == self@.capacity,
    {
        self.inner.capacity()
    }

    pub fn used(&self) -> (r: usize)
        ensures
            r == self@.used,
    {
        self.inner.used()
    }

    pub fn free(&self) -> (r: usize)
        requires
            self@.wf(),
        ensures
            r == self@.capacity - self@.used,
    {
        self.inner.free()
    }

    pub fn checkpoint(&self) -> (r: usize)
        ensures
            r == self@.used,
    {
        self.inner.checkpoint()
    }

    /// Takes back everything that was handed out since a checkpoint.
    pub fn restore(&mut self, ck: usize)
        requires
            old(self)@.wf(),
            ck <= old(self)@.used,
        ensures
            final(self)@ == (ArenaView { used: ck as nat, ..old(self)@ }),
            final(self)@.wf(),
    {
        self.inner.restore(ck)
    }

    /// Hands out the next `bytes` whose start is a multiple of `align`.
    pub fn region(&mut self, name: &'static str, bytes: usize, align: usize) -> (r: Result<
        Region<'ctx>,
        RvllmError,
    >)
        requires
            old(self)@.wf(),
            align > 0,
        ensures
            final(self)@.wf(),
            if old(self)@.has_room(bytes as nat, align as nat) {
                &&& r is Ok
                &&& r->Ok_0.start() == old(self)@.next_start(align as nat)
                &&& r->Ok_0.size() == bytes
                &&& r->Ok_0.label() == name
                &&& final(self)@ == old(self)@.after(bytes as nat, align as nat)
            } else {
                r == Err::<Region<'ctx>, RvllmError>(no_room(name)) && final(self)@ == old(self)@
            },
    {
        self.inner.region(name, bytes, align)
    }

    /// The arena without its distinction.
    #[must_use]
    pub fn into_inner(self) -> (r: HbmArena<'ctx>)
        ensures
            r@ == self@,
    {
        self.inner
    }
}

} // verus!
