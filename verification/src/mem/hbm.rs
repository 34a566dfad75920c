//! The device-memory arena: one slab, handed out from the bottom up.

use crate::error::{CudaCtx, CudaErrorKind, RvllmError};
use crate::mem::graph_safe::GraphSafe;
use core::marker::PhantomData;
use std::rc::Rc;
use vstd::prelude::*;

verus! {

/// Device address of the slab of a stub arena. Nothing lies there.
pub const STUB_BASE: u64 = 0x1_0000_0000;

/// A slab of device memory. Regions are cut from it in order and are never
/// given back one by one.
#[derive(Debug)]
pub struct HbmArena<'ctx> {
    base: u64,
    capacity: usize,
    used: usize,
    _ctx: PhantomData<&'ctx ()>,
}

/// A piece of an arena. It belongs to the thread of its worker: it is neither
/// `Send` nor `Sync`.
#[derive(Debug)]
pub struct Region<'a> {
    ptr: u64,
    len: usize,
    name: &'static str,
    _arena: PhantomData<&'a ()>,
    _not_send_sync: PhantomData<Rc<()>>,
}

/// The contents of an arena: its base address, its size, and how much of it is
/// handed out.
pub struct ArenaView {
    pub base: nat,
    pub capacity: nat,
    pub used: nat,
}

/// Bytes to skip so that `addr` is a multiple of `align`.
pub open spec fn padding(addr: nat, align: nat) -> nat {
    if addr % align == 0 {
        0
    } else {
        (align - addr % align) as nat
    }
}

impl ArenaView {
    pub open spec fn wf(self) -> bool {
        self.used <= self.capacity && self.base + self.capacity <= u64::MAX && self.capacity
            <= usize::MAX
    }

    /// Where the next region of this alignment starts.
    pub open spec fn next_start(self, align: nat) -> nat {
        self.base + self.used + padding(self.base + self.used, align)
    }

    /// Whether a region of this size and alignment still fits.
    pub open spec fn has_room(self, bytes: nat, align: nat) -> bool {
        self.next_start(align) + bytes <= self.base + self.capacity
    }

    /// The arena once such a region was handed out.
    pub open spec fn after(self, bytes: nat, align: nat) -> ArenaView {
        ArenaView { used: (self.next_start(align) + bytes - self.base) as nat, ..self }
    }
}

/// The error of an arena that has no room for a region.
pub open spec fn no_room(name: &'static str) -> RvllmError {
    RvllmError::Cuda {
        op: "HbmArena::region",
        kind: CudaErrorKind::AllocFailed,
        ctx: CudaCtx { stream: 0, kernel: name, launch: None, device: -1i32 },
    }
}

impl<'ctx> View for HbmArena<'ctx> {
    type V = ArenaView;

    closed spec fn view(&self) -> ArenaView {
        ArenaView { base: self.base as nat, capacity: self.capacity as nat, used: self.used as nat }
    }
}

impl<'a> Region<'a> {
    pub closed spec fn start(self) -> u64 {
        self.ptr
    }

    pub closed spec fn size(self) -> usize {
        self.len
    }

    pub closed spec fn label(self) -> &'static str {
        self.name
    }

    pub fn device_ptr(&self) -> (r: u64)
        ensures
            r == self.start(),
    {
        self.ptr
    }

    pub fn len(&self) -> (r: usize)
        ensures
            r == self.size(),
    {
        self.len
    }

    pub fn name(&self) -> (r: &'static str)
        ensures
            r == self.label(),
    {
        self.name
    }
}

impl<'a> GraphSafe for Region<'a> {

}

impl<'ctx> HbmArena<'ctx> {
    /// An arena over memory that was allocated elsewhere.
    pub fn from_raw_parts(base: u64, bytes: usize) -> (r: HbmArena<'ctx>)
        requires
            base + bytes <= u64::MAX,
        ensures
            r@ == (ArenaView { base: base as nat, capacity: bytes as nat, used: 0 }),
            r@.wf(),
    {
        HbmArena { base, capacity: bytes, used: 0, _ctx: PhantomData }
    }

    /// An arena over no memory, for its bookkeeping alone.
    pub fn new_host_stub(bytes: usize) -> (r: HbmArena<'ctx>)
        requires
            STUB_BASE + bytes <= u64::MAX,
        ensures
            r@ == (ArenaView { base: STUB_BASE as nat, capacity: bytes as nat, used: 0 }),
            r@.wf(),
    {
        HbmArena { base: STUB_BASE, capacity: bytes, used: 0, _ctx: PhantomData }
    }

    pub fn capacity(&self) -> (r: usize)
        ensures
            r == self@.capacity,
    {
        self.capacity
    }

    pub fn used(&self) -> (r: usize)
        ensures
            r == self@.used,
    {
        self.used
    }

    pub fn free(&self) -> (r: usize)
        requires
            self@.wf(),
        ensures
            r == self@.capacity - self@.used,
    {
        self.capacity - self.used
    }

    /// How much is handed out now, for `restore`.
    pub fn checkpoint(&self) -> (r: usize)
        ensures
            r == self@.used,
    {
        self.used
    }

    /// Takes back everything that was handed out since a checkpoint. The regions
    /// handed out since must not be used any more.
    pub fn restore(&mut self, ck: usize)
        requires
            old(self)@.wf(),
            ck <= old(self)@.used,
        ensures
            final(self)@ == (ArenaView { used: ck as nat, ..old(self)@ }),
            final(self)@.wf(),
    {
        self.used = ck;
    }

    /// Hands out the next `bytes` whose start is a multiple of `align`.
    pub fn region(&mut self, name: &'static str, bytes: usize, align: usize) -> (r: Result<
        Region<'ctx>,
        RvllmError,
    >)
        requires
            old(self)@.wf(),
            align > 0,
        ensures
            final(self)@.wf(),
            if old(self)@.has_room(bytes as nat, align as nat) {
                &&& r is Ok
                &&& r->Ok_0.start() == old(self)@.next_start(align as nat)
                &&& r->Ok_0.size() == bytes
                &&& r->Ok_0.label() == name
                &&& final(self)@ == old(self)@.after(bytes as nat, align as nat)
            } else {
                r == Err::<Region<'ctx>, RvllmError>(no_room(name)) && final(self)@ == old(self)@
            },
    {
        let at: u64 = self.base + self.used as u64;
        let rest: u64 = at % (align as u64);
        let pad: u64 = if rest == 0 {
            0
        } else {
            align as u64 - rest
        };
        let left: usize = self.capacity - self.used;
        if pad > left as u64 || bytes > left - pad as usize {
            return Err(
                RvllmError::cuda(
                    "HbmArena::region",
                    CudaErrorKind::AllocFailed,
                    CudaCtx { stream: 0, kernel: name, launch: None, device: -1 },
                ),
            );
        }
        let ptr: u64 = at + pad;
        self.used = self.used + pad as usize + bytes;
        Ok(Region { ptr, len: bytes, name, _arena: PhantomData, _not_send_sync: PhantomData })
    }
}

/// A region starts at a multiple of its alignment, lies inside the arena, and
/// behind everything that was handed out before it.
pub proof fn regions_are_aligned_and_apart(arena: ArenaView, bytes: nat, align: nat)
    requires
        arena.wf(),
        align > 0,
        arena.has_room(bytes, align),
    ensures
        arena.next_start(align) % align == 0,
        arena.base + arena.used <= arena.next_start(align),
        arena.next_start(align) + bytes <= arena.base + arena.capacity,
        arena.after(bytes, align).base + arena.after(bytes, align).used == arena.next_start(align)
            + bytes,
        arena.after(bytes, align).wf(),
        arena.next_start(align) < arena.base + arena.used + align,
{
    let a = (arena.base + arena.used) as int;
    let d = align as int;
    let q = a / d;
    let r = a % d;
    assert(a == q * d + r && 0 <= r < d) by (nonlinear_arith)
        requires
            d > 0,
            q == a / d,
            r == a % d,
    ;
    assert(((q + 1) * d) % d == 0 && (q + 1) * d == q * d + d) by (nonlinear_arith)
        requires
            d > 0,
    ;
}

/// Two regions handed out one after the other do not overlap, whatever was
/// handed out between them.
pub proof fn later_regions_lie_behind(
    arena: ArenaView,
    bytes: nat,
    align: nat,
    later: ArenaView,
    later_align: nat,
)
    requires
        arena.wf(),
        align > 0,
        arena.has_room(bytes, align),
        later.base == arena.base,
        later.used >= arena.after(bytes, align).used,
    ensures
        arena.next_start(align) + bytes <= later.next_start(later_align),
{
}

/// Restoring a checkpoint makes the arena hand out what it handed out after the
/// checkpoint.
pub proof fn restore_undoes_regions(arena: ArenaView, bytes: nat, align: nat)
    requires
        arena.wf(),
        align > 0,
        arena.has_room(bytes, align),
    ensures
        arena.used <= arena.after(bytes, align).used,
        (ArenaView { used: arena.used, ..arena.after(bytes, align) }) == arena,
{
}

} // verus!
