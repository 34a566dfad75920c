//! Paged prefill. Prefill runs on many query tokens per sequence; the kernels
//! find each sequence's span in the concatenated query tensor by prefix sums.

use crate::arch::Build;
use crate::attention::{
    head_dim_supported, is_supported_head_dim, unsupported_head_dim, AttentionBackend,
    Fa2PtxKernels, SUPPORTED_HEAD_DIMS,
};
use crate::error::{AttentionError, AttnCtx, CudaErrorKind, RvllmError};
use crate::fused::launch_raw::{KernelArgs, RawLaunch, UnifiedPrefillArgs};
use crate::ids::F32Bits;
use vstd::prelude::*;

verus! {

/// Shape of one prefill launch.
#[derive(Copy, Clone, Debug, PartialEq, Eq, Structural)]
pub struct PagedPrefillParams {
    pub num_tokens: u32,
    pub num_seqs: u32,
    pub num_heads: u32,
    pub num_kv_heads: u32,
    pub head_dim: u32,
    pub block_size: u32,
    pub max_blocks_per_seq: u32,
    pub num_blocks_total: u32,
    pub scale: F32Bits,
    pub window_size_left: i32,
}

impl PagedPrefillParams {
    /// The context of errors on this launch.
    pub open spec fn ctx(self, op: &'static str, stream: u64) -> AttnCtx {
        AttnCtx { op, stream, num_seqs: self.num_seqs, head_dim: self.head_dim }
    }

    /// The first check that the parameters fail, if any: the head dimension,
    /// then the ratio of query heads to KV heads.
    pub open spec fn validated(self) -> Result<(), RvllmError> {
        if !head_dim_supported(self.head_dim) {
            Err(unsupported_head_dim(self.ctx("paged_prefill.validate", 0)))
        } else if self.num_kv_heads == 0 || self.num_heads % self.num_kv_heads != 0 {
            Err(
                RvllmError::Attention {
                    err: AttentionError::GqaRatioInvalid {
                        num_heads: self.num_heads,
                        num_kv_heads: self.num_kv_heads,
                    },
                    ctx: self.ctx("paged_prefill.validate", 0),
                },
            )
        } else {
            Ok(())
        }
    }

    /// Checks the head dimension and the ratio of query heads to KV heads.
    pub fn validate(&self) -> (r: Result<(), RvllmError>)
        ensures
            r == self.validated(),
    {
        let ctx = AttnCtx {
            op: "paged_prefill.validate",
            stream: 0,
            num_seqs: self.num_seqs,
            head_dim: self.head_dim,
        };
        if !is_supported_head_dim(self.head_dim) {
            return Err(
                RvllmError::Attention {
                    err: AttentionError::UnsupportedHeadDim {
                        got: self.head_dim,
                        supported: SUPPORTED_HEAD_DIMS,
                    },
                    ctx,
                },
            );
        }
        if self.num_kv_heads == 0 || self.num_heads % self.num_kv_heads != 0 {
            return Err(
                RvllmError::Attention {
                    err: AttentionError::GqaRatioInvalid {
                        num_heads: self.num_heads,
                        num_kv_heads: self.num_kv_heads,
                    },
                    ctx,
                },
            );
        }
        Ok(())
    }
}

/// Half-precision paged prefill. No backend has a kernel for it: parameters that
/// pass their check are refused too.
pub struct PagedPrefillLauncher<'a> {
    pub _backend: &'a AttentionBackend,
}

impl<'a> PagedPrefillLauncher<'a> {
    pub fn new(backend: &'a AttentionBackend) -> (r: Self)
        ensures
            *r._backend == *backend,
    {
        PagedPrefillLauncher { _backend: backend }
    }

    #[allow(clippy::too_many_arguments)]
    pub fn launch(
        &self,
        params: PagedPrefillParams,
        _out_ptr: u64,
        _q_ptr: u64,
        _k_cache_ptr: u64,
        _v_cache_ptr: u64,
        _block_tables_ptr: u64,
        _context_lens_ptr: u64,
        _cu_seqlens_q_ptr: u64,
        _cu_seqlens_k_ptr: u64,
        _workspace_ptr: u64,
        stream: u64,
    ) -> (r: Result<(), RvllmError>)
        ensures
            r == match params.validated() {
                Err(e) => Err::<(), RvllmError>(e),
                Ok(()) => Err(
                    not_available(
                        "paged_prefill (no half-precision kernel)",
                        match *self._backend {
                            AttentionBackend::Fa3(_) => "Fa3",
                            AttentionBackend::Fa2Ptx(_) => "Fa2Ptx",
                        },
                        params.ctx("paged_prefill", stream),
                    ),
                ),
            },
    {
        params.validate()?;
        let backend = match self._backend {
            AttentionBackend::Fa3(_) => "Fa3",
            AttentionBackend::Fa2Ptx(_) => "Fa2Ptx",
        };
        Err(
            RvllmError::Attention {
                err: AttentionError::FeatureNotAvailable {
                    op: "paged_prefill (no half-precision kernel)",
                    backend,
                },
                ctx: AttnCtx {
                    op: "paged_prefill",
                    stream,
                    num_seqs: params.num_seqs,
                    head_dim: params.head_dim,
                },
            },
        )
    }
}

/// Rows of queries that one block of the unified prefill kernel works on.
pub const UNIFIED_PREFILL_BLOCK_M: u32 = 16;

/// Threads per block of the FA2 kernels.
pub const FA2_THREADS: u32 = 128;

/// Depth of one tensor-core step of the unified prefill kernel.
pub const MMA_K: u32 = 32;

/// Dynamic shared memory beyond this many bytes must be asked for.
pub const SMEM_OPT_IN: u32 = 49152;

/// Tiling of the unified prefill kernel.
#[derive(Copy, Clone, Debug, PartialEq, Eq, Structural)]
pub struct UnifiedPrefillParams {
    pub num_queries_per_kv: u32,
    pub tile_size: u32,
    pub block_q: u32,
    /// Whether the query-key product runs on the tensor cores.
    pub use_mma: bool,
}

/// Device pointers of a unified prefill launch. The scale caches may be null,
/// in which case the fallback descales are used.
#[derive(Copy, Clone, Debug, PartialEq, Eq, Structural)]
pub struct UnifiedPrefillPtrs {
    pub o_f16: u64,
    pub q_fp8: u64,
    pub k_cache_fp8: u64,
    pub v_cache_fp8: u64,
    pub k_scale_cache: u64,
    pub v_scale_cache: u64,
    pub q_scale_cache: u64,
    pub k_descale_fallback: u64,
    pub v_descale_fallback: u64,
    pub block_tables: u64,
    pub cu_seqlens_q: u64,
    pub context_lens: u64,
    pub q_descale_fallback: u64,
}

/// A launch of the unified prefill kernel.
#[derive(Copy, Clone, Debug)]
pub struct UnifiedPrefillLaunch {
    pub raw: RawLaunch,
    /// Set first as the kernel's limit on dynamic shared memory, where there is
    /// one.
    pub max_dynamic_smem: Option<i32>,
    pub num_seqs: u32,
    pub head_dim: u32,
}

/// Shared memory of the unified prefill kernel in bytes, region by region.
pub open spec fn unified_smem(head_dim: int, tile_size: int) -> int {
    let block_m = UNIFIED_PREFILL_BLOCK_M as int;
    let mma_k = MMA_K as int;
    let q_fp8 = block_m * head_dim;
    let q_scale = block_m * 4;
    let k_fp8 = head_dim * tile_size;
    let v_fp8 = tile_size * head_dim;
    let v_fp8_transposed = mma_k * head_dim;
    let k_scale = tile_size * 4;
    let v_scale = tile_size * 4;
    let scores = block_m * mma_k * 4;
    let softmax_state = block_m * 4 * 3;
    let p_fp8 = block_m * mma_k;
    let p_scale = block_m * 4;
    let accumulator = block_m * head_dim * 4;
    let reduce_tail = (FA2_THREADS as int / 32) * 4;
    let cushion: int = 128;
    q_fp8 + q_scale + k_fp8 + v_fp8 + v_fp8_transposed + k_scale + v_scale + scores
        + softmax_state + p_fp8 + p_scale + accumulator + reduce_tail + cushion
}

/// An upper bound on the query blocks over all sequences: full blocks of the
/// concatenated tokens, and one more per sequence.
pub open spec fn total_q_blocks(num_tokens: int, block_q: int, num_seqs: int) -> int {
    (num_tokens + block_q - 1) / block_q + num_seqs
}

/// The grid covers every query block: where the sequences' lengths sum to the
/// token count, the blocks that the sequences need, each rounded up on its own,
/// are no more than the grid has.
pub proof fn grid_covers_every_block(lens: Seq<nat>, block_q: nat)
    requires
        block_q > 0,
    ensures
        blocks_needed(lens, block_q) <= total_q_blocks(
            sum(lens) as int,
            block_q as int,
            lens.len() as int,
        ),
    decreases lens.len(),
{
    let bq = block_q as int;
    if lens.len() > 0 {
        let rest = lens.drop_last();
        let s = sum(rest) as int;
        let l = lens.last() as int;
        grid_covers_every_block(rest, block_q);
        let a = (s + bq - 1) / bq;
        let b = (l + bq - 1) / bq;
        let c = (s + l + bq - 1) / bq;
        assert(a + b <= c + 1) by (nonlinear_arith)
            requires
                bq > 0,
                s >= 0,
                l >= 0,
                a == (s + bq - 1) / bq,
                b == (l + bq - 1) / bq,
                c == (s + l + bq - 1) / bq,
        {
            assert(bq * a <= s + bq - 1);
            assert(bq * b <= l + bq - 1);
            assert(bq * (c + 1) > s + l + bq - 1);
            if a + b >= c + 2 {
                assert(bq * (a + b) >= bq * (c + 2));
                assert(bq * (a + b) == bq * a + bq * b);
                assert(bq * (c + 2) == bq * (c + 1) + bq);
            }
        }
    } else {
        assert((bq - 1) / bq == 0) by (nonlinear_arith)
            requires
                bq > 0,
        ;
    }
}

/// The sum of the sequences' lengths.
pub open spec fn sum(lens: Seq<nat>) -> nat
    decreases lens.len(),
{
    if lens.len() == 0 {
        0
    } else {
        sum(lens.drop_last()) + lens.last()
    }
}

/// The query blocks that the sequences need, each rounded up on its own.
pub open spec fn blocks_needed(lens: Seq<nat>, block_q: nat) -> int
    decreases lens.len(),
{
    if lens.len() == 0 {
        0
    } else {
        blocks_needed(lens.drop_last(), block_q) + (lens.last() + block_q - 1) / (block_q as int)
    }
}

/// The tile size for a head dimension: wide tiles up to 256, narrow beyond.
pub open spec fn tile_size_for(head_dim: u32) -> u32 {
    if head_dim <= 256 {
        32
    } else {
        16
    }
}

/// With its tile size, every supported head dimension stays inside the 99 KiB
/// of shared memory that sm_121 grants on request; only the largest one needs
/// to ask.
pub proof fn tile_size_fits_shared_memory(head_dim: u32)
    requires
        head_dim_supported(head_dim),
    ensures
        unified_smem(head_dim as int, tile_size_for(head_dim) as int) <= 99 * 1024,
        unified_smem(head_dim as int, tile_size_for(head_dim) as int) >= SMEM_OPT_IN <==> head_dim
            == 512,
{
    if head_dim == 128 {
        assert(unified_smem(128, 32) == 25808);
    } else if head_dim == 256 {
        assert(unified_smem(256, 32) == 48336);
    } else {
        assert(unified_smem(512, 16) == 76880);
    }
}

/// FP8 paged prefill: FP8 queries, keys and values, causal within each
/// sequence.
pub struct PagedPrefillFp8Launcher<'a> {
    pub backend: &'a AttentionBackend,
}

/// A call of the FA3 FP8 prefill entry point, arguments in its order.
#[derive(Copy, Clone, Debug, PartialEq, Eq, Structural)]
pub struct Fa3PrefillCall {
    pub entry: u64,
    pub q_fp8: u64,
    pub k_cache_fp8: u64,
    pub v_cache_fp8: u64,
    pub o_f16: u64,
    pub block_tables: u64,
    pub context_lens: u64,
    pub cu_seqlens_q: u64,
    pub workspace: u64,
    pub q_descale: u64,
    pub k_descale: u64,
    pub v_descale: u64,
    pub scale: F32Bits,
    pub total_q: i32,
    pub max_seqlen_q: i32,
    pub batch_size: i32,
    pub num_heads: i32,
    pub num_kv_heads: i32,
    pub head_dim: i32,
    pub block_size: i32,
    pub max_blocks_per_seq: i32,
    pub num_blocks_total: i32,
    pub window_size_left: i32,
    pub stream: u64,
    /// Not arguments: what an error on the call reports.
    pub num_seqs: u32,
    pub head_dim_reported: u32,
}

/// The error of an attention kernel that failed to launch.
pub open spec fn launch_failed(ctx: AttnCtx) -> RvllmError {
    RvllmError::Attention {
        err: AttentionError::KernelLaunchFailed { cuda: CudaErrorKind::LaunchFailed },
        ctx,
    }
}

/// The error of an operation that the backend has no kernel for.
pub open spec fn not_available(
    op: &'static str,
    backend: &'static str,
    ctx: AttnCtx,
) -> RvllmError {
    RvllmError::Attention { err: AttentionError::FeatureNotAvailable { op, backend }, ctx }
}

impl Fa3PrefillCall {
    /// What the entry point's answer means: zero is success.
    pub fn finish(&self, rc: i32) -> (r: Result<(), RvllmError>)
        ensures
            r == if rc == 0 {
                Ok::<(), RvllmError>(())
            } else {
                Err(
                    launch_failed(
                        AttnCtx {
                            op: "paged_prefill_fp8",
                            stream: self.stream,
                            num_seqs: self.num_seqs,
                            head_dim: self.head_dim_reported,
                        },
                    ),
                )
            },
    {
        if rc != 0 {
            return Err(
                RvllmError::Attention {
                    err: AttentionError::KernelLaunchFailed { cuda: CudaErrorKind::LaunchFailed },
                    ctx: AttnCtx {
                        op: "paged_prefill_fp8",
                        stream: self.stream,
                        num_seqs: self.num_seqs,
                        head_dim: self.head_dim_reported,
                    },
                },
            );
        }
        Ok(())
    }
}

impl UnifiedPrefillLaunch {
    /// What the driver's answer to the launch means: zero is success. The
    /// answer to raising the shared-memory limit is not looked at.
    pub fn finish(&self, rc: u32) -> (r: Result<(), RvllmError>)
        ensures
            r == if rc == 0 {
                Ok::<(), RvllmError>(())
            } else {
                Err(
                    launch_failed(
                        AttnCtx {
                            op: "paged_prefill_fp8_unified (Fa2Ptx)",
                            stream: self.raw.stream,
                            num_seqs: self.num_seqs,
                            head_dim: self.head_dim,
                        },
                    ),
                )
            },
    {
        if rc != 0 {
            return Err(
                RvllmError::Attention {
                    err: AttentionError::KernelLaunchFailed { cuda: CudaErrorKind::LaunchFailed },
                    ctx: AttnCtx {
                        op: "paged_prefill_fp8_unified (Fa2Ptx)",
                        stream: self.raw.stream,
                        num_seqs: self.num_seqs,
                        head_dim: self.head_dim,
                    },
                },
            );
        }
        Ok(())
    }
}

/// The error for which a unified prefill is refused before its launch, if it
/// is.
pub open spec fn unified_refusal(
    build: Build,
    backend: AttentionBackend,
    params: PagedPrefillParams,
    stream: u64,
) -> Option<RvllmError> {
    let ctx = params.ctx("launch_fp8kv_unified_sm121", stream);
    if params.validated() is Err {
        Some(params.validated()->Err_0)
    } else if build is Host {
        Some(not_available("paged_prefill_fp8_unified (non-cuda build)", "mock", ctx))
    } else {
        match backend {
            AttentionBackend::Fa2Ptx(fa2) => if fa2.unified_prefill() is None {
                Some(
                    not_available(
                        "paged_prefill_fp8_unified (PTX module not loaded)",
                        "Fa2Ptx",
                        ctx,
                    ),
                )
            } else {
                None
            },
            _ => Some(
                not_available("paged_prefill_fp8_unified (sm_121 only)", "non-Fa2Ptx", ctx),
            ),
        }
    }
}

/// A backend that says it has the unified prefill kernel never refuses valid
/// parameters, so a caller that asked first needs no other way out.
pub proof fn loaded_kernel_is_not_refused(
    fa2: Fa2PtxKernels,
    params: PagedPrefillParams,
    stream: u64,
)
    requires
        fa2.unified_prefill() is Some,
        params.validated() is Ok,
    ensures
        unified_refusal(Build::Cuda, AttentionBackend::Fa2Ptx(fa2), params, stream) is None,
{
}

/// The launch of a unified prefill that is not refused.
pub open spec fn unified_launch(
    backend: AttentionBackend,
    params: PagedPrefillParams,
    unified: UnifiedPrefillParams,
    ptrs: UnifiedPrefillPtrs,
    stream: u64,
) -> UnifiedPrefillLaunch {
    let smem = unified_smem(params.head_dim as int, unified.tile_size as int) as u32;
    let q_blocks = total_q_blocks(
        params.num_tokens as int,
        unified.block_q as int,
        params.num_seqs as int,
    ) as u32;
    UnifiedPrefillLaunch {
        raw: RawLaunch {
            kernel: backend->Fa2Ptx_0.unified_prefill()->0,
            grid: (q_blocks, params.num_kv_heads, 1),
            block: (FA2_THREADS, 1, 1),
            shared_mem_bytes: smem,
            stream,
            args: KernelArgs::UnifiedPrefill(
                UnifiedPrefillArgs {
                    out: ptrs.o_f16,
                    q: ptrs.q_fp8,
                    k: ptrs.k_cache_fp8,
                    v: ptrs.v_cache_fp8,
                    k_scale: ptrs.k_scale_cache,
                    v_scale: ptrs.v_scale_cache,
                    q_scale: ptrs.q_scale_cache,
                    k_descale_fallback: ptrs.k_descale_fallback,
                    v_descale_fallback: ptrs.v_descale_fallback,
                    block_tables: ptrs.block_tables,
                    cu_seqlens_q: ptrs.cu_seqlens_q,
                    context_lens: ptrs.context_lens,
                    q_descale_fallback: ptrs.q_descale_fallback,
                    scale: params.scale,
                    num_heads: params.num_heads as i32,
                    num_kv_heads: params.num_kv_heads as i32,
                    head_dim: params.head_dim as i32,
                    block_size: params.block_size as i32,
                    max_blocks_per_seq: params.max_blocks_per_seq as i32,
                    tile_size: unified.tile_size as i32,
                    num_queries_per_kv: unified.num_queries_per_kv as i32,
                    block_q: unified.block_q as i32,
                    num_seqs: params.num_seqs as i32,
                    window_size_left: params.window_size_left,
                    use_mma: if unified.use_mma {
                        1i32
                    } else {
                        0i32
                    },
                },
            ),
        },
        max_dynamic_smem: if smem >= SMEM_OPT_IN {
            Some(smem as i32)
        } else {
            None
        },
        num_seqs: params.num_seqs,
        head_dim: params.head_dim,
    }
}

/// What a unified prefill comes to: an error, or one launch.
pub open spec fn unified_outcome(
    build: Build,
    backend: AttentionBackend,
    params: PagedPrefillParams,
    unified: UnifiedPrefillParams,
    ptrs: UnifiedPrefillPtrs,
    stream: u64,
) -> Result<UnifiedPrefillLaunch, RvllmError> {
    match unified_refusal(build, backend, params, stream) {
        Some(e) => Err(e),
        None => Ok(unified_launch(backend, params, unified, ptrs, stream)),
    }
}

/// Whether the sizes of a unified prefill launch can be represented: shared
/// memory and grid fit in 32 bits, and there is at least one query row per
/// block.
pub open spec fn unified_sizes_fit(
    params: PagedPrefillParams,
    unified: UnifiedPrefillParams,
) -> bool {
    &&& unified.block_q > 0
    &&& unified_smem(params.head_dim as int, unified.tile_size as int) <= u32::MAX
    &&& total_q_blocks(
        params.num_tokens as int,
        unified.block_q as int,
        params.num_seqs as int,
    ) <= u32::MAX
}

fn unified_smem_bytes(head_dim: u32, tile_size: u32) -> (r: u32)
    requires
        unified_smem(head_dim as int, tile_size as int) <= u32::MAX,
    ensures
        r == unified_smem(head_dim as int, tile_size as int),
{
    let hd = head_dim;
    let ts = tile_size;
    proof {
        assert(0 <= hd * ts) by (nonlinear_arith)
            requires
                hd >= 0,
                ts >= 0,
        ;
        assert(ts * hd == hd * ts) by (nonlinear_arith);
    }
    UNIFIED_PREFILL_BLOCK_M * hd  // queries
     + UNIFIED_PREFILL_BLOCK_M * 4  // query scales
     + hd * ts  // keys
     + ts * hd  // values
     + MMA_K * hd  // values, transposed
     + ts * 4  // key scales
     + ts * 4  // value scales
     + UNIFIED_PREFILL_BLOCK_M * MMA_K * 4  // scores
     + UNIFIED_PREFILL_BLOCK_M * 4 * 3  // softmax state
     + UNIFIED_PREFILL_BLOCK_M * MMA_K  // probabilities
     + UNIFIED_PREFILL_BLOCK_M * 4  // probability scales
     + UNIFIED_PREFILL_BLOCK_M * hd * 4  // accumulator
     + (FA2_THREADS / 32) * 4  // reduction tail
     + 128
}

fn q_blocks(num_tokens: u32, block_q: u32, num_seqs: u32) -> (r: u32)
    requires
        block_q > 0,
        total_q_blocks(num_tokens as int, block_q as int, num_seqs as int) <= u32::MAX,
    ensures
        r == total_q_blocks(num_tokens as int, block_q as int, num_seqs as int),
{
    let full: u32 = num_tokens / block_q;
    let rest: u32 = num_tokens % block_q;
    proof {
        let n = num_tokens as int;
        let b = block_q as int;
        let f = n / b;
        let t = n % b;
        assert((n + b - 1) / b == if t == 0 {
            f
        } else {
            f + 1
        }) by (nonlinear_arith)
            requires
                b > 0,
                n >= 0,
                f == n / b,
                t == n % b,
        {
            assert(n == b * f + t);
            assert(0 <= t < b);
            let c = (n + b - 1) / b;
            let d = (n + b - 1) % b;
            assert(n + b - 1 == b * c + d);
            assert(0 <= d < b);
            if t == 0 {
                assert(b * c == b * f + (b - 1 - d));
                assert(c == f) by {
                    if c > f {
                        assert(b * c >= b * (f + 1));
                        assert(b * (f + 1) == b * f + b);
                    } else if c < f {
                        assert(b * c <= b * (f - 1));
                        assert(b * (f - 1) == b * f - b);
                    }
                }
            } else {
                assert(b * c == b * f + (t + b - 1 - d));
                assert(c == f + 1) by {
                    if c > f + 1 {
                        assert(b * c >= b * (f + 2));
                        assert(b * (f + 2) == b * f + 2 * b);
                    } else if c < f + 1 {
                        assert(b * c <= b * f);
                    }
                }
            }
        }
    }
    if rest == 0 {
        full + num_seqs
    } else {
        full + 1 + num_seqs
    }
}

impl<'a> PagedPrefillFp8Launcher<'a> {
    pub fn new(backend: &'a AttentionBackend) -> (r: Self)
        ensures
            *r.backend == *backend,
    {
        PagedPrefillFp8Launcher { backend }
    }

    /// The unified FP8 prefill of sm_121: all query tokens in one launch. Other
    /// backends have no such kernel.
    pub fn launch_fp8kv_unified_sm121(
        &self,
        build: Build,
        params: PagedPrefillParams,
        unified: UnifiedPrefillParams,
        ptrs: UnifiedPrefillPtrs,
        stream: u64,
    ) -> (r: Result<UnifiedPrefillLaunch, RvllmError>)
        requires
            unified_refusal(build, *self.backend, params, stream) is None ==> unified_sizes_fit(
                params,
                unified,
            ),
        ensures
            r == unified_outcome(build, *self.backend, params, unified, ptrs, stream),
    {
        params.validate()?;
        let ctx = AttnCtx {
            op: "launch_fp8kv_unified_sm121",
            stream,
            num_seqs: params.num_seqs,
            head_dim: params.head_dim,
        };
        if let Build::Host = build {
            return Err(
                RvllmError::Attention {
                    err: AttentionError::FeatureNotAvailable {
                        op: "paged_prefill_fp8_unified (non-cuda build)",
                        backend: "mock",
                    },
                    ctx,
                },
            );
        }
        let fa2 = match self.backend {
            AttentionBackend::Fa2Ptx(fa2) => fa2,
            _ => {
                return Err(
                    RvllmError::Attention {
                        err: AttentionError::FeatureNotAvailable {
                            op: "paged_prefill_fp8_unified (sm_121 only)",
                            backend: "non-Fa2Ptx",
                        },
                        ctx,
                    },
                );
            },
        };
        let loaded = match &fa2.entries {
            Some(entries) => entries.fn_prefill_fp8kv_unified,
            None => None,
        };
        let kernel = match loaded {
            Some(kernel) => kernel,
            None => {
                return Err(
                    RvllmError::Attention {
                        err: AttentionError::FeatureNotAvailable {
                            op: "paged_prefill_fp8_unified (PTX module not loaded)",
                            backend: "Fa2Ptx",
                        },
                        ctx,
                    },
                );
            },
        };
        let smem_bytes: u32 = unified_smem_bytes(params.head_dim, unified.tile_size);
        let total_num_q_blocks: u32 = q_blocks(
            params.num_tokens,
            unified.block_q,
            params.num_seqs,
        );
        let args = UnifiedPrefillArgs {
            out: ptrs.o_f16,
            q: ptrs.q_fp8,
            k: ptrs.k_cache_fp8,
            v: ptrs.v_cache_fp8,
            k_scale: ptrs.k_scale_cache,
            v_scale: ptrs.v_scale_cache,
            q_scale: ptrs.q_scale_cache,
            k_descale_fallback: ptrs.k_descale_fallback,
            v_descale_fallback: ptrs.v_descale_fallback,
            block_tables: ptrs.block_tables,
            cu_seqlens_q: ptrs.cu_seqlens_q,
            context_lens: ptrs.context_lens,
            q_descale_fallback: ptrs.q_descale_fallback,
            scale: params.scale,
            num_heads: params.num_heads as i32,
            num_kv_heads: params.num_kv_heads as i32,
            head_dim: params.head_dim as i32,
            block_size: params.block_size as i32,
            max_blocks_per_seq: params.max_blocks_per_seq as i32,
            tile_size: unified.tile_size as i32,
            num_queries_per_kv: unified.num_queries_per_kv as i32,
            block_q: unified.block_q as i32,
            num_seqs: params.num_seqs as i32,
            window_size_left: params.window_size_left,
            use_mma: if unified.use_mma {
                1
            } else {
                0
            },
        };
        Ok(
            UnifiedPrefillLaunch {
                raw: RawLaunch {
                    kernel,
                    grid: (total_num_q_blocks, params.num_kv_heads, 1),
                    block: (FA2_THREADS, 1, 1),
                    shared_mem_bytes: smem_bytes,
                    stream,
                    args: KernelArgs::UnifiedPrefill(args),
                },
                max_dynamic_smem: if smem_bytes >= SMEM_OPT_IN {
                    Some(smem_bytes as i32)
                } else {
                    None
                },
                num_seqs: params.num_seqs,
                head_dim: params.head_dim,
            },
        )
    }

    /// FP8 prefill through the FA3 library. The FA2 kernels have none and are
    /// refused in every build. Of the FA3 library a host build launches nothing.
    #[allow(clippy::too_many_arguments)]
    pub fn launch(
        &self,
        build: Build,
        params: PagedPrefillParams,
        o_f16: u64,
        q_fp8: u64,
        k_cache_fp8: u64,
        v_cache_fp8: u64,
        block_tables: u64,
        context_lens: u64,
        cu_seqlens_q: u64,
        workspace: u64,
        q_descale_ptr: u64,
        k_descale_ptr: u64,
        v_descale_ptr: u64,
        max_seqlen_q: u32,
        stream: u64,
    ) -> (r: Result<Option<Fa3PrefillCall>, RvllmError>)
        ensures
            if params.validated() is Err {
                r == Err::<Option<Fa3PrefillCall>, RvllmError>(params.validated()->Err_0)
            } else {
                match *self.backend {
                    AttentionBackend::Fa2Ptx(_) => r == Err::<Option<Fa3PrefillCall>, RvllmError>(
                        not_available(
                            "paged_prefill_fp8 Fa2Ptx (use decode-per-qi loop)",
                            "Fa2Ptx",
                            params.ctx("paged_prefill_fp8 (Fa2Ptx)", stream),
                        ),
                    ),
                    AttentionBackend::Fa3(fa3) => if build is Host {
                        r == Ok::<Option<Fa3PrefillCall>, RvllmError>(None)
                    } else {
                        match fa3.prefill_entry() {
                            None => r matches Err(
                                RvllmError::Attention {
                                    err: AttentionError::Fa3SoMissing { path },
                                    ctx,
                                },
                            ) && path@ == fa3.so_path@ && ctx == params.ctx(
                                "paged_prefill_fp8 symbol missing from .so (rebuild fa3)",
                                stream,
                            ),
                            Some(entry) => r == Ok::<Option<Fa3PrefillCall>, RvllmError>(
                                Some(
                                    Fa3PrefillCall {
                                        entry,
                                        q_fp8,
                                        k_cache_fp8,
                                        v_cache_fp8,
                                        o_f16,
                                        block_tables,
                                        context_lens,
                                        cu_seqlens_q,
                                        workspace,
                                        q_descale: q_descale_ptr,
                                        k_descale: k_descale_ptr,
                                        v_descale: v_descale_ptr,
                                        scale: params.scale,
                                        total_q: params.num_tokens as i32,
                                        max_seqlen_q: max_seqlen_q as i32,
                                        batch_size: params.num_seqs as i32,
                                        num_heads: params.num_heads as i32,
                                        num_kv_heads: params.num_kv_heads as i32,
                                        head_dim: params.head_dim as i32,
                                        block_size: params.block_size as i32,
                                        max_blocks_per_seq: params.max_blocks_per_seq as i32,
                                        num_blocks_total: params.num_blocks_total as i32,
                                        window_size_left: params.window_size_left,
                                        stream,
                                        num_seqs: params.num_seqs,
                                        head_dim_reported: params.head_dim,
                                    },
                                ),
                            ),
                        }
                    },
                }
            },
    {
        params.validate()?;
        let fa3 = match self.backend {
            AttentionBackend::Fa3(fa3) => fa3,
            AttentionBackend::Fa2Ptx(_) => {
                return Err(
                    RvllmError::Attention {
                        err: AttentionError::FeatureNotAvailable {
                            op: "paged_prefill_fp8 Fa2Ptx (use decode-per-qi loop)",
                            backend: "Fa2Ptx",
                        },
                        ctx: AttnCtx {
                            op: "paged_prefill_fp8 (Fa2Ptx)",
                            stream,
                            num_seqs: params.num_seqs,
                            head_dim: params.head_dim,
                        },
                    },
                );
            },
        };
        if let Build::Host = build {
            return Ok(None);
        }
        let resolved = match &fa3.entries {
            Some(entries) => entries.paged_prefill_fp8,
            None => None,
        };
        let entry: u64 = match resolved {
            Some(entry) => entry,
            None => {
                return Err(
                    RvllmError::Attention {
                        err: AttentionError::Fa3SoMissing { path: fa3.so_path.clone() },
                        ctx: AttnCtx {
                            op: "paged_prefill_fp8 symbol missing from .so (rebuild fa3)",
                            stream,
                            num_seqs: params.num_seqs,
                            head_dim: params.head_dim,
                        },
                    },
                );
            },
        };
        Ok(
            Some(
                Fa3PrefillCall {
                    entry,
                    q_fp8,
                    k_cache_fp8,
                    v_cache_fp8,
                    o_f16,
                    block_tables,
                    context_lens,
                    cu_seqlens_q,
                    workspace,
                    q_descale: q_descale_ptr,
                    k_descale: k_descale_ptr,
                    v_descale: v_descale_ptr,
                    scale: params.scale,
                    total_q: params.num_tokens as i32,
                    max_seqlen_q: max_seqlen_q as i32,
                    batch_size: params.num_seqs as i32,
                    num_heads: params.num_heads as i32,
                    num_kv_heads: params.num_kv_heads as i32,
                    head_dim: params.head_dim as i32,
                    block_size: params.block_size as i32,
                    max_blocks_per_seq: params.max_blocks_per_seq as i32,
                    num_blocks_total: params.num_blocks_total as i32,
                    window_size_left: params.window_size_left,
                    stream,
                    num_seqs: params.num_seqs,
                    head_dim_reported: params.head_dim,
                },
            ),
        )
    }
}

} // verus!
