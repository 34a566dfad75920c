//! What holds of every prefill launch, whatever its parameters.

use crate::arch::Build;
use crate::attention::prefill::{
    blocks_needed, grid_covers_every_block, sum, unified_smem, Fa3PrefillCall,
    PagedPrefillFp8Launcher, PagedPrefillLauncher, PagedPrefillParams, UnifiedPrefillLaunch,
    UnifiedPrefillParams, UnifiedPrefillPtrs,
};
use crate::attention::AttentionBackend;
use crate::error::{AttentionError, RvllmError};
use crate::fused::launch_raw::{KernelArg, KernelArgs};
use vstd::prelude::*;

verus! {

/// Parameters pass their check exactly where the head dimension is 128, 256 or
/// 512 and the query heads divide evenly among the KV heads.
pub proof fn valid_parameters_divide_evenly(params: PagedPrefillParams)
    ensures
        params.validated() is Ok <==> {
            &&& params.head_dim == 128 || params.head_dim == 256 || params.head_dim == 512
            &&& params.num_kv_heads > 0
            &&& exists|per_kv: int| #[trigger]
                (per_kv * params.num_kv_heads) == params.num_heads && per_kv >= 0
        },
{
    let h = params.num_heads as int;
    let g = params.num_kv_heads as int;
    if g > 0 {
        let q = h / g;
        assert(h == g * q + h % g && q >= 0) by (nonlinear_arith)
            requires
                g > 0,
                h >= 0,
                q == h / g,
        ;
        assert(g * q == q * g) by (nonlinear_arith);
        if h % g == 0 {
            assert(q * g == h);
        }
        if exists|per_kv: int| #[trigger] (per_kv * g) == h && per_kv >= 0 {
            let p = choose|per_kv: int| #[trigger] (per_kv * g) == h && per_kv >= 0;
            assert(h % g == 0) by (nonlinear_arith)
                requires
                    g > 0,
                    p * g == h,
            ;
        }
    }
}

/// Whether `launch` is what the unified prefill is prepared as.
pub open spec fn unified_prepares(
    l: &PagedPrefillFp8Launcher<'_>,
    build: Build,
    params: PagedPrefillParams,
    unified: UnifiedPrefillParams,
    ptrs: UnifiedPrefillPtrs,
    stream: u64,
    launch: UnifiedPrefillLaunch,
) -> bool {
    &&& call_requires(
        PagedPrefillFp8Launcher::launch_fp8kv_unified_sm121,
        (l, build, params, unified, ptrs, stream),
    )
    &&& call_ensures(
        PagedPrefillFp8Launcher::launch_fp8kv_unified_sm121,
        (l, build, params, unified, ptrs, stream),
        Ok::<UnifiedPrefillLaunch, RvllmError>(launch),
    )
}

/// The unified kernel reads its arguments by position: output, queries, keys,
/// values, the three scale caches, the fallback descales of keys and values,
/// block tables, query starts, context lengths, the fallback descale of the
/// queries, the softmax scale, and then the counts.
pub proof fn unified_arguments_stand_in_their_places(
    l: &PagedPrefillFp8Launcher<'_>,
    build: Build,
    params: PagedPrefillParams,
    unified: UnifiedPrefillParams,
    ptrs: UnifiedPrefillPtrs,
    stream: u64,
    launch: UnifiedPrefillLaunch,
)
    requires
        unified_prepares(l, build, params, unified, ptrs, stream, launch),
    ensures
        ({
            let a = launch.raw.args.in_order();
            &&& a.len() == 25
            &&& a[0] == KernelArg::Ptr(ptrs.o_f16)
            &&& a[1] == KernelArg::Ptr(ptrs.q_fp8)
            &&& a[2] == KernelArg::Ptr(ptrs.k_cache_fp8)
            &&& a[3] == KernelArg::Ptr(ptrs.v_cache_fp8)
            &&& a[4] == KernelArg::Ptr(ptrs.k_scale_cache)
            &&& a[5] == KernelArg::Ptr(ptrs.v_scale_cache)
            &&& a[6] == KernelArg::Ptr(ptrs.q_scale_cache)
            &&& a[7] == KernelArg::Ptr(ptrs.k_descale_fallback)
            &&& a[8] == KernelArg::Ptr(ptrs.v_descale_fallback)
            &&& a[9] == KernelArg::Ptr(ptrs.block_tables)
            &&& a[10] == KernelArg::Ptr(ptrs.cu_seqlens_q)
            &&& a[11] == KernelArg::Ptr(ptrs.context_lens)
            &&& a[12] == KernelArg::Ptr(ptrs.q_descale_fallback)
            &&& a[13] == KernelArg::F32(params.scale)
            &&& a[14] == KernelArg::I32(params.num_heads as i32)
            &&& a[15] == KernelArg::I32(params.num_kv_heads as i32)
            &&& a[16] == KernelArg::I32(params.head_dim as i32)
            &&& a[17] == KernelArg::I32(params.block_size as i32)
            &&& a[18] == KernelArg::I32(params.max_blocks_per_seq as i32)
            &&& a[19] == KernelArg::I32(unified.tile_size as i32)
            &&& a[20] == KernelArg::I32(unified.num_queries_per_kv as i32)
            &&& a[21] == KernelArg::I32(unified.block_q as i32)
            &&& a[22] == KernelArg::I32(params.num_seqs as i32)
            &&& a[23] == KernelArg::I32(params.window_size_left)
            &&& a[24] == KernelArg::I32(
                if unified.use_mma {
                    1
                } else {
                    0
                },
            )
        }),
{
}

/// A launch agrees with itself: its grid has one column per KV head that it
/// names, and where the tiling divides the query heads among the KV heads, the
/// query heads that it names are those of all KV heads together. It runs the
/// kernel that the backend has loaded, on the stream that it was asked to, with
/// 128 threads to a block, and asks for shared memory exactly where it needs
/// more than is granted unasked.
pub proof fn unified_launches_agree_with_their_grid(
    l: &PagedPrefillFp8Launcher<'_>,
    build: Build,
    params: PagedPrefillParams,
    unified: UnifiedPrefillParams,
    ptrs: UnifiedPrefillPtrs,
    stream: u64,
    launch: UnifiedPrefillLaunch,
)
    requires
        unified_prepares(l, build, params, unified, ptrs, stream, launch),
        params.num_heads <= i32::MAX,
        params.num_kv_heads <= i32::MAX,
        unified.num_queries_per_kv == params.num_heads / params.num_kv_heads,
    ensures
        launch.raw.args matches KernelArgs::UnifiedPrefill(a) && {
            &&& launch.raw.grid.1 == a.num_kv_heads
            &&& launch.raw.grid.2 == 1
            &&& a.num_heads == a.num_kv_heads * a.num_queries_per_kv
        },
        launch.raw.block == (128u32, 1u32, 1u32),
        launch.raw.stream == stream,
        *l.backend matches AttentionBackend::Fa2Ptx(fa2) && fa2.unified_prefill() == Some(
            launch.raw.kernel,
        ),
        launch.max_dynamic_smem is Some <==> launch.raw.shared_mem_bytes >= 48 * 1024,
        launch.max_dynamic_smem matches Some(bytes) ==> bytes
            == launch.raw.shared_mem_bytes as i32,
        launch.num_seqs == params.num_seqs,
        launch.head_dim == params.head_dim,
{
    valid_parameters_divide_evenly(params);
    let g = params.num_kv_heads as int;
    let h = params.num_heads as int;
    let p = choose|per_kv: int| #[trigger]
        (per_kv * params.num_kv_heads) == params.num_heads && per_kv >= 0;
    assert(h / g == p && g * p == h && p <= h && (g <= h || h == 0)) by (nonlinear_arith)
        requires
            g > 0,
            p >= 0,
            p * g == h,
    ;
}

/// Every query block of every sequence has a block of the grid: where the
/// sequences' lengths add up to the token count, the blocks that they need, each
/// rounded up on its own, are no more than the grid has.
pub proof fn every_query_block_is_launched(
    l: &PagedPrefillFp8Launcher<'_>,
    build: Build,
    params: PagedPrefillParams,
    unified: UnifiedPrefillParams,
    ptrs: UnifiedPrefillPtrs,
    stream: u64,
    launch: UnifiedPrefillLaunch,
    lens: Seq<nat>,
)
    requires
        unified_prepares(l, build, params, unified, ptrs, stream, launch),
        lens.len() == params.num_seqs,
        sum(lens) == params.num_tokens,
        unified.block_q > 0,
        params.num_tokens + params.num_seqs + unified.block_q <= u32::MAX,
    ensures
        blocks_needed(lens, unified.block_q as nat) <= launch.raw.grid.0,
{
    grid_covers_every_block(lens, unified.block_q as nat);
    let n = params.num_tokens as int;
    let b = unified.block_q as int;
    assert(0 <= (n + b - 1) / b <= n + b) by (nonlinear_arith)
        requires
            n >= 0,
            b > 0,
    ;
}

/// The FA3 prefill call names each buffer and each count by what it is: the
/// concatenated tokens are its queries in all, the sequences its batch, and the
/// query heads divide evenly among the KV heads.
#[allow(clippy::too_many_arguments)]
pub proof fn fa3_calls_name_their_operands(
    l: &PagedPrefillFp8Launcher<'_>,
    build: Build,
    params: PagedPrefillParams,
    o_f16: u64,
    q_fp8: u64,
    k_cache_fp8: u64,
    v_cache_fp8: u64,
    block_tables: u64,
    context_lens: u64,
    cu_seqlens_q: u64,
    workspace: u64,
    q_descale_ptr: u64,
    k_descale_ptr: u64,
    v_descale_ptr: u64,
    max_seqlen_q: u32,
    stream: u64,
    call: Fa3PrefillCall,
)
    requires
        call_ensures(
            PagedPrefillFp8Launcher::launch,
            (
                l,
                build,
                params,
                o_f16,
                q_fp8,
                k_cache_fp8,
                v_cache_fp8,
                block_tables,
                context_lens,
                cu_seqlens_q,
                workspace,
                q_descale_ptr,
                k_descale_ptr,
                v_descale_ptr,
                max_seqlen_q,
                stream,
            ),
            Ok::<Option<Fa3PrefillCall>, RvllmError>(Some(call)),
        ),
        params.num_heads <= i32::MAX,
        params.num_kv_heads <= i32::MAX,
    ensures
        build is Cuda,
        *l.backend matches AttentionBackend::Fa3(fa3) && fa3.prefill_entry() == Some(call.entry),
        call.o_f16 == o_f16,
        call.q_fp8 == q_fp8,
        call.k_cache_fp8 == k_cache_fp8,
        call.v_cache_fp8 == v_cache_fp8,
        call.block_tables == block_tables,
        call.context_lens == context_lens,
        call.cu_seqlens_q == cu_seqlens_q,
        call.workspace == workspace,
        call.q_descale == q_descale_ptr,
        call.k_descale == k_descale_ptr,
        call.v_descale == v_descale_ptr,
        call.scale == params.scale,
        call.total_q == params.num_tokens as i32,
        call.max_seqlen_q == max_seqlen_q as i32,
        call.batch_size == params.num_seqs as i32,
        call.num_heads == params.num_heads,
        call.num_kv_heads == params.num_kv_heads,
        call.num_heads % call.num_kv_heads == 0,
        call.head_dim == 128 || call.head_dim == 256 || call.head_dim == 512,
        call.head_dim == params.head_dim,
        call.block_size == params.block_size as i32,
        call.max_blocks_per_seq == params.max_blocks_per_seq as i32,
        call.num_blocks_total == params.num_blocks_total as i32,
        call.window_size_left == params.window_size_left,
        call.stream == stream,
        call.num_seqs == params.num_seqs,
        call.head_dim_reported == params.head_dim,
{
    valid_parameters_divide_evenly(params);
    let g = params.num_kv_heads as int;
    let h = params.num_heads as int;
    let p = choose|per_kv: int| #[trigger]
        (per_kv * params.num_kv_heads) == params.num_heads && per_kv >= 0;
    assert(h % g == 0 && (g <= h || h == 0)) by (nonlinear_arith)
        requires
            g > 0,
            p >= 0,
            p * g == h,
    ;
}

/// A launch has no more than one spare block per sequence, and its shared memory
/// is what its head dimension and tile take.
pub proof fn unified_launches_are_no_larger_than_needed(
    l: &PagedPrefillFp8Launcher<'_>,
    build: Build,
    params: PagedPrefillParams,
    unified: UnifiedPrefillParams,
    ptrs: UnifiedPrefillPtrs,
    stream: u64,
    launch: UnifiedPrefillLaunch,
)
    requires
        unified_prepares(l, build, params, unified, ptrs, stream, launch),
        unified.block_q > 0,
        params.num_tokens + params.num_seqs + unified.block_q <= u32::MAX,
        unified.tile_size <= 32,
    ensures
        ({
            let spare = (launch.raw.grid.0 - params.num_seqs) * unified.block_q;
            params.num_tokens <= spare < params.num_tokens + unified.block_q
        }),
        launch.raw.shared_mem_bytes == 112 * params.head_dim + 2 * (params.head_dim
            * unified.tile_size) + 8 * unified.tile_size + 3024,
{
    valid_parameters_divide_evenly(params);
    let n = params.num_tokens as int;
    let b = unified.block_q as int;
    let q = (n + b - 1) / b;
    assert(n <= q * b < n + b && 0 <= q <= n + b) by (nonlinear_arith)
        requires
            n >= 0,
            b > 0,
            q == (n + b - 1) / b,
    ;
    let t = unified.tile_size as int;
    let d = params.head_dim as int;
    assert(d * t == t * d && 0 <= d * t <= 512 * 32) by (nonlinear_arith)
        requires
            0 <= t <= 32,
            0 <= d <= 512,
    ;
    assert(unified_smem(d, t) == 112 * d + 2 * (d * t) + 8 * t + 3024);
}

/// A unified prefill is prepared exactly on a device, by a backend that has the
/// kernel, for parameters that pass their check.
pub proof fn unified_prefills_need_their_kernel(
    l: &PagedPrefillFp8Launcher<'_>,
    build: Build,
    params: PagedPrefillParams,
    unified: UnifiedPrefillParams,
    ptrs: UnifiedPrefillPtrs,
    stream: u64,
    checked: Result<(), RvllmError>,
    r: Result<UnifiedPrefillLaunch, RvllmError>,
)
    requires
        call_ensures(PagedPrefillParams::validate, (&params,), checked),
        call_ensures(
            PagedPrefillFp8Launcher::launch_fp8kv_unified_sm121,
            (l, build, params, unified, ptrs, stream),
            r,
        ),
    ensures
        checked is Ok <==> {
            &&& params.head_dim == 128 || params.head_dim == 256 || params.head_dim == 512
            &&& params.num_kv_heads > 0
            &&& exists|per_kv: int| #[trigger]
                (per_kv * params.num_kv_heads) == params.num_heads && per_kv >= 0
        },
        checked matches Err(e) ==> r == Err::<UnifiedPrefillLaunch, RvllmError>(e),
        r is Ok <==> checked is Ok && build is Cuda && (
        *l.backend matches AttentionBackend::Fa2Ptx(fa2) && (fa2.entries matches Some(e)
            && e.fn_prefill_fp8kv_unified is Some)),
{
    valid_parameters_divide_evenly(params);
}

/// The FA3 prefill is called exactly on a device whose library has the entry point;
/// a host build calls nothing, FA2 refuses, and a library without the entry point
/// is named as missing.
pub proof fn fa3_prefills_need_their_entry(
    l: &PagedPrefillFp8Launcher<'_>,
    build: Build,
    params: PagedPrefillParams,
    p: UnifiedPrefillPtrs,
    workspace: u64,
    max_seqlen_q: u32,
    stream: u64,
    checked: Result<(), RvllmError>,
    r: Result<Option<Fa3PrefillCall>, RvllmError>,
)
    requires
        call_ensures(PagedPrefillParams::validate, (&params,), checked),
        call_ensures(
            PagedPrefillFp8Launcher::launch,
            (
                l,
                build,
                params,
                p.o_f16,
                p.q_fp8,
                p.k_cache_fp8,
                p.v_cache_fp8,
                p.block_tables,
                p.context_lens,
                p.cu_seqlens_q,
                workspace,
                p.q_descale_fallback,
                p.k_descale_fallback,
                p.v_descale_fallback,
                max_seqlen_q,
                stream,
            ),
            r,
        ),
    ensures
        checked matches Err(e) ==> r == Err::<Option<Fa3PrefillCall>, RvllmError>(e),
        checked is Ok ==> match *l.backend {
            AttentionBackend::Fa2Ptx(_) => r is Err,
            AttentionBackend::Fa3(fa3) => {
                &&& build is Host ==> (r matches Ok(c) && c is None)
                &&& build is Cuda ==> (r is Ok <==> (fa3.entries matches Some(e)
                    && e.paged_prefill_fp8 is Some))
                &&& build is Cuda && r is Ok ==> r->Ok_0 is Some
                &&& r matches Err(e) ==> (e matches RvllmError::Attention {
                    err: AttentionError::Fa3SoMissing { path },
                    ctx,
                } && path@ == fa3.so_path@ && ctx.stream == stream && ctx.head_dim
                    == params.head_dim)
            },
        },
{
}

/// There is no half-precision prefill: one is never launched.
pub proof fn half_precision_prefills_are_refused(
    l: &PagedPrefillLauncher<'_>,
    params: PagedPrefillParams,
    p: UnifiedPrefillPtrs,
    cu_seqlens_k: u64,
    workspace: u64,
    stream: u64,
    r: Result<(), RvllmError>,
)
    requires
        call_ensures(
            PagedPrefillLauncher::launch,
            (
                l,
                params,
                p.o_f16,
                p.q_fp8,
                p.k_cache_fp8,
                p.v_cache_fp8,
                p.block_tables,
                p.context_lens,
                p.cu_seqlens_q,
                cu_seqlens_k,
                workspace,
                stream,
            ),
            r,
        ),
    ensures
        r is Err,
{
}

/// A prefill has succeeded exactly where zero was answered; the error names the
/// stream of the launch, its sequences and its head dimension.
pub proof fn prefills_succeed_on_zero(
    call: Fa3PrefillCall,
    launch: UnifiedPrefillLaunch,
    rc: i32,
    code: u32,
    a: Result<(), RvllmError>,
    b: Result<(), RvllmError>,
)
    requires
        call_ensures(Fa3PrefillCall::finish, (&call, rc), a),
        call_ensures(UnifiedPrefillLaunch::finish, (&launch, code), b),
    ensures
        a is Ok <==> rc == 0,
        b is Ok <==> code == 0,
        a matches Err(e) ==> (e matches RvllmError::Attention { ctx, .. } && ctx.stream
            == call.stream && ctx.num_seqs == call.num_seqs && ctx.head_dim
            == call.head_dim_reported),
        b matches Err(e) ==> (e matches RvllmError::Attention { ctx, .. } && ctx.stream
            == launch.raw.stream && ctx.num_seqs == launch.num_seqs && ctx.head_dim
            == launch.head_dim),
{
}

} // verus!
