//! What arenas hand out, said of addresses.

use crate::error::{CudaErrorKind, RvllmError};
use crate::mem::context::CudaContextHandle;
use crate::mem::hbm::{regions_are_aligned_and_apart, ArenaView, HbmArena, Region};
use crate::mem::unified::{ManagedAlloc, UnifiedArena};
use vstd::prelude::*;

verus! {

/// Whether `r` is what came of asking an arena for a region: where some aligned
/// stretch is left behind what was handed out, the lowest one, and the arena
/// counts up to its end; else an error that names the region, and the arena is as
/// it was.
pub open spec fn hands_out(
    before: ArenaView,
    after: ArenaView,
    name: &'static str,
    bytes: nat,
    align: nat,
    r: Result<Region<'_>, RvllmError>,
) -> bool {
    let low = before.base + before.used;
    let high = before.base + before.capacity;
    match r {
        Ok(g) => {
            &&& g.start() as nat % align == 0
            &&& low <= g.start()
            &&& g.start() + bytes <= high
            &&& forall|x: nat| low <= x < g.start() ==> #[trigger] (x % align) != 0
            &&& g.size() == bytes
            &&& g.label() == name
            &&& after.base == before.base
            &&& after.capacity == before.capacity
            &&& after.base + after.used == g.start() + bytes
        },
        Err(e) => {
            &&& e matches RvllmError::Cuda { kind, ctx, .. } && kind == CudaErrorKind::AllocFailed
                && ctx.kernel == name
            &&& after == before
            &&& forall|x: nat| low <= x && x + bytes <= high ==> #[trigger] (x % align) != 0
        },
    }
}

/// The start of the next region is the lowest multiple of the alignment that is
/// left.
proof fn next_start_is_lowest(arena: ArenaView, align: nat, x: nat)
    requires
        align > 0,
        arena.base + arena.used <= x < arena.next_start(align),
    ensures
        x % align != 0,
{
    let a = (arena.base + arena.used) as int;
    let d = align as int;
    let y = x as int;
    assert(a % d != 0 ==> y % d != 0) by (nonlinear_arith)
        requires
            d > 0,
            a <= y,
            a % d != 0 ==> y < a + (d - a % d),
    ;
}

/// Every request to an arena is answered with the lowest aligned stretch that is
/// left, or with none where none is.
pub proof fn regions_are_the_lowest_left(
    arena: &mut HbmArena<'_>,
    name: &'static str,
    bytes: usize,
    align: usize,
    r: Result<Region<'_>, RvllmError>,
)
    requires
        old(arena)@.wf(),
        align > 0,
        call_ensures(HbmArena::region, (arena, name, bytes, align), r),
    ensures
        hands_out(old(arena)@, final(arena)@, name, bytes as nat, align as nat, r),
{
    lowest_left(old(arena)@, bytes as nat, align as nat);
}

/// The same holds of arenas over managed memory.
pub proof fn managed_regions_are_the_lowest_left(
    arena: &mut UnifiedArena<'_>,
    name: &'static str,
    bytes: usize,
    align: usize,
    r: Result<Region<'_>, RvllmError>,
)
    requires
        old(arena)@.wf(),
        align > 0,
        call_ensures(UnifiedArena::region, (arena, name, bytes, align), r),
    ensures
        hands_out(old(arena)@, final(arena)@, name, bytes as nat, align as nat, r),
{
    lowest_left(old(arena)@, bytes as nat, align as nat);
}

proof fn lowest_left(arena: ArenaView, bytes: nat, align: nat)
    requires
        arena.wf(),
        align > 0,
    ensures
        forall|x: nat|
            arena.base + arena.used <= x < arena.next_start(align) ==> #[trigger] (x % align) != 0,
        arena.has_room(bytes, align) ==> arena.next_start(align) % align == 0 && arena.next_start(
            align,
        ) >= arena.base + arena.used,
{
    if arena.has_room(bytes, align) {
        regions_are_aligned_and_apart(arena, bytes, align);
    }
    assert forall|x: nat|
        arena.base + arena.used <= x < arena.next_start(align) implies #[trigger] (x % align)
        != 0 by {
        next_start_is_lowest(arena, align, x);
    }
}

/// Going back to a checkpoint leaves the arena as it was when the checkpoint was
/// taken, whatever was handed out since.
pub proof fn checkpoints_are_returned_to(
    then: HbmArena<'_>,
    ck: usize,
    now: &mut HbmArena<'_>,
)
    requires
        call_ensures(HbmArena::checkpoint, (&then,), ck),
        old(now)@.base == then@.base,
        old(now)@.capacity == then@.capacity,
        call_ensures(HbmArena::restore, (now, ck), ()),
    ensures
        final(now)@ == then@,
{
}

/// What is handed out and what is free make up the arena.
pub proof fn used_and_free_make_up_the_arena(
    arena: HbmArena<'_>,
    capacity: usize,
    used: usize,
    free: usize,
)
    requires
        arena@.wf(),
        call_ensures(HbmArena::capacity, (&arena,), capacity),
        call_ensures(HbmArena::used, (&arena,), used),
        call_ensures(HbmArena::free, (&arena,), free),
    ensures
        used + free == capacity,
        used == arena@.used,
        capacity == arena@.capacity,
{
}

/// An arena starts empty, with the memory that it was given. Managed memory that
/// could not be had, or that there is no driver to ask for, gives no arena.
pub proof fn arenas_start_empty(
    base: u64,
    bytes: usize,
    ctx: CudaContextHandle,
    alloc: ManagedAlloc,
    plain: HbmArena<'_>,
    managed: Result<UnifiedArena<'_>, RvllmError>,
)
    requires
        base + bytes <= u64::MAX,
        alloc matches ManagedAlloc::Allocated(at) ==> at + bytes <= u64::MAX,
        call_ensures(HbmArena::from_raw_parts, (base, bytes), plain),
        call_ensures(UnifiedArena::new, (&ctx, bytes, alloc), managed),
    ensures
        plain@.base == base && plain@.capacity == bytes && plain@.used == 0,
        managed is Ok <==> alloc is Allocated,
        managed matches Ok(a) ==> a@.base == alloc->Allocated_0 && a@.capacity == bytes
            && a@.used == 0,
        managed matches Err(e) ==> (e matches RvllmError::Cuda { ctx: c, .. } && c.device
            == ctx.device),
{
}

/// Going back to a checkpoint works on managed memory too, and taking the
/// distinction off changes nothing.
pub proof fn managed_checkpoints_are_returned_to(
    then: UnifiedArena<'_>,
    ck: usize,
    now: &mut UnifiedArena<'_>,
    plain: HbmArena<'_>,
    free: usize,
)
    requires
        call_ensures(UnifiedArena::checkpoint, (&then,), ck),
        old(now)@.base == then@.base,
        old(now)@.capacity == then@.capacity,
        then@.wf(),
        call_ensures(UnifiedArena::restore, (now, ck), ()),
        call_ensures(UnifiedArena::into_inner, (then,), plain),
        call_ensures(UnifiedArena::free, (&then,), free),
    ensures
        final(now)@ == then@,
        plain@ == then@,
        then@.used + free == then@.capacity,
{
}

} // verus!
