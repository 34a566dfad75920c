//! One Gemma 4 decoder layer as a list of device operations.
//!
//! What sets the layer apart:
//!   - four norms (input, post-attention, pre-feedforward, post-feedforward)
//!   - RMS norm on the query and key heads before RoPE
//!   - parameter-free RMS norm on the values
//!   - GELU(tanh) activation
//!   - partial RoPE: only the first `rotary_dim` dimensions of a head rotate
//!   - KV head count, head dimension and window differ from layer to layer
//!   - a learned scalar per layer, applied once after both halves
//!
//! Order of the operations:
//!   1.  norm of the input, quantized to FP8
//!   2.  projection to queries, keys and values
//!   3.  norms of queries, keys and values
//!   4.  partial RoPE, KV cache update
//!   5.  attention
//!   6.  quantization of the attention output
//!   7.  output projection
//!   8.  post-attention norm, added to the residual
//!   9.  pre-feedforward norm, quantized to FP8
//!  10.  gate and up projection
//!  11.  GELU of the gating half times the up half
//!  12.  down projection
//!  13.  post-feedforward norm, added to the residual
//!  14.  the residual times the layer scalar

use crate::arch::Build;
use crate::attention::decode::PagedDecodeParams;
use crate::attention::prefill::{
    tile_size_for, unified_outcome, unified_refusal, unified_sizes_fit, PagedPrefillFp8Launcher,
    PagedPrefillParams, UnifiedPrefillParams, UnifiedPrefillPtrs, UNIFIED_PREFILL_BLOCK_M,
};
use crate::attention::AttentionBackend;
use crate::cutlass::lib_so::{CutlassBackend, GemmCall, PrepCall, SizeOf};
use crate::cutlass::plan::Fp8GemmPlan;
use crate::error::RvllmError;
use crate::fused::launch_raw::{
    launch_raw, GeluMulArgs, KernelArgs, RawLaunch, RopeF16KvArgs, ScaleArgs,
};
use crate::ids::F32Bits;
use crate::kernels::module::KernelFn;
use crate::runtime::layer_ops::{
    runs_are_recorded_in_turn, DecodeF16, DecodeFp8, LayerOp, LtGemm, NormAdd, QkvNorm, Quantize,
    RopeFp8Kv, Run,
};
use crate::text::same_text;
use vstd::prelude::*;

verus! {

/// How far a layer attends.
#[derive(Copy, Clone, Debug, PartialEq, Eq, Structural)]
pub enum Gemma4LayerType {
    SlidingAttention,
    GlobalAttention,
}

/// Shape of a layer and of the step it runs in.
#[derive(Copy, Clone, Debug, PartialEq, Eq, Structural)]
pub struct Gemma4LayerDims {
    pub num_tokens: u32,
    pub hidden: u32,
    pub num_heads: u32,
    pub num_kv_heads: u32,
    pub head_dim: u32,
    pub rotary_dim: u32,
    pub intermediate: u32,
    pub block_size: u32,
    pub max_blocks_per_seq: u32,
    pub num_blocks_total: u32,
    pub attn_scale: F32Bits,
    pub rms_eps: F32Bits,
    pub layer_type: Gemma4LayerType,
    pub sliding_window: u32,
    pub f16_kv: bool,
}

/// Device pointers of the weights of a layer.
///
/// `*_f16` is null where the weight is FP8. `*_chscale` is null where the weight
/// has one scale, else a vector of one scale per output row. `*_blockscale` is
/// null where the weight has no two-dimensional block scales, as for weights
/// that were fused from parts; only kernels that read the full two-dimensional
/// shape take it, and a vector of row scales must never stand in for it.
#[derive(Copy, Clone, Debug, PartialEq, Eq, Structural)]
pub struct Gemma4LayerWeightPtrs {
    pub attn_norm_gamma: u64,
    pub post_attn_norm_gamma: u64,
    pub pre_ff_norm_gamma: u64,
    pub post_ff_norm_gamma: u64,
    pub q_norm_gamma: u64,
    pub k_norm_gamma: u64,
    pub qkv_fp8: u64,
    pub qkv_scale: u64,
    pub o_fp8: u64,
    pub o_scale: u64,
    pub gate_up_fp8: u64,
    pub gate_up_scale: u64,
    pub down_fp8: u64,
    pub down_scale: u64,
    /// One half-precision number: the factor on the residual.
    pub layer_scalar_ptr: u64,
    pub qkv_f16: u64,
    pub o_f16: u64,
    pub gate_up_f16: u64,
    pub down_f16: u64,
    pub qkv_chscale: u64,
    pub o_chscale: u64,
    pub gate_up_chscale: u64,
    pub down_chscale: u64,
    pub qkv_blockscale: u64,
    pub o_blockscale: u64,
    pub gate_up_blockscale: u64,
    pub down_blockscale: u64,
}

/// Device pointers of the scratch buffers of a layer.
#[derive(Copy, Clone, Debug, PartialEq, Eq, Structural)]
pub struct Gemma4LayerScratch {
    pub hidden_fp8: u64,
    pub hidden_scale: u64,
    pub q_out: u64,
    pub k_out: u64,
    pub v_out: u64,
    pub q_normed: u64,
    pub k_normed: u64,
    /// Values after their norm, compact by token, KV head and dimension.
    pub v_normed: u64,
    pub q_fp8: u64,
    pub k_cache: u64,
    pub v_cache: u64,
    pub q_scale_ptr: u64,
    pub kv_scale_ptr: u64,
    /// Key scales by slot and KV head, written by RoPE and read by attention.
    pub k_scale_cache: u64,
    /// Value scales by slot and KV head.
    pub v_scale_cache: u64,
    /// Query scales by token and head, of this step only. May be null.
    pub q_scale_cache: u64,
    pub attn_out: u64,
    pub attn_out_fp8: u64,
    pub attn_out_scale: u64,
    pub delta_f16: u64,
    pub gate_up_out: u64,
    pub gate_up_fp8: u64,
    pub gate_up_scale: u64,
    pub mlp_out_fp8: u64,
    pub mlp_out_scale: u64,
    pub gemm_f32_tmp: u64,
    pub cutlass_workspace: u64,
    pub cutlass_workspace_bytes: usize,
    pub fa3_workspace: u64,
}

/// The planned matrix multiplications of a layer.
#[derive(Copy, Clone, Debug)]
pub struct Gemma4GemmPlans {
    pub qkv: Fp8GemmPlan,
    pub o: Fp8GemmPlan,
    pub gate_up: Fp8GemmPlan,
    pub down: Fp8GemmPlan,
}

/// Device pointers of the step's metadata.
#[derive(Copy, Clone, Debug, PartialEq, Eq, Structural)]
pub struct Gemma4MetadataPtrs {
    pub positions: u64,
    pub slot_mapping: u64,
    pub cos: u64,
    pub sin: u64,
    pub block_tables: u64,
    pub context_lens: u64,
}

/// The kernels of a layer.
#[derive(Copy, Clone, Debug)]
pub struct Gemma4LayerKernels {
    pub fused_rmsnorm: KernelFn,
    pub fused_rmsnorm_fp8_quant: KernelFn,
    pub fused_qk_rmsnorm: KernelFn,
    pub fused_rope_partial_fp8kv: KernelFn,
    pub fused_gelu_mul: KernelFn,
    pub quantize_fp8_per_token: KernelFn,
    pub residual_scale_f16: KernelFn,
    pub vnorm_f16: KernelFn,
    pub vector_add_f16: KernelFn,
    pub bf16_to_f16_sat: KernelFn,
    pub rmsnorm_inplace_bf16: KernelFn,
    pub vector_add_bf16_to_f16: KernelFn,
    pub f32_to_bf16: KernelFn,
    pub f32_to_f16_sat: KernelFn,
    pub scale_cols_f32: KernelFn,
    /// Multiplies row `m` by `scale[m] / scale[0]`.
    pub scale_rows_f32_ratio: KernelFn,
    pub compute_qkv_scales: KernelFn,
    pub fused_gelu_mul_f16: KernelFn,
    pub fused_rope_partial_f16kv: KernelFn,
    pub fused_norm_add_residual: KernelFn,
    pub fused_norm_add_residual_f16: KernelFn,
    /// Norm-add over half-precision input.
    pub fused_norm_add_residual_f16in: KernelFn,
    pub fused_qkv_rmsnorm: KernelFn,
    pub scale_cols_f16: KernelFn,
    /// Product of FP8 weights with half-precision activations. `None` where the
    /// target has no such kernel.
    pub fp8_gemv_wpr_native_f16in: Option<KernelFn>,
}

/// What a step does with the query tokens.
#[derive(Copy, Clone, Debug, PartialEq, Eq, Structural)]
pub enum Gemma4Phase {
    /// One query token per sequence.
    Decode,
    /// The query tokens of a prompt.
    Prefill { cu_seqlens_q: u64, max_seqlen_q: u32, num_seqs: u32 },
}

/// The environment variables that steer a layer, as they are set.
#[derive(Debug)]
pub struct LayerEnv {
    /// `RVLLM_UNIFIED_PREFILL`
    pub unified_prefill: Option<String>,
    /// `RVLLM_UNIFIED_PREFILL_MMA`
    pub unified_prefill_mma: Option<String>,
    /// `RVLLM_FP8_GEMM_CUTLASS_SM120`
    pub fp8_gemm_cutlass_sm120: Option<String>,
}

/// Whether a variable is set to `value`.
pub open spec fn var_is(var: Option<String>, value: Seq<char>) -> bool {
    match var {
        Some(s) => s@ == value,
        None => false,
    }
}

fn is_set_to(var: &Option<String>, value: &str) -> (r: bool)
    ensures
        r == var_is(*var, value@),
{
    match var {
        Some(s) => same_text(s.as_str(), value),
        None => false,
    }
}

impl LayerEnv {
    /// The unified prefill kernel is used unless the variable is `0`.
    pub open spec fn unified_enabled(self) -> bool {
        !var_is(self.unified_prefill, "0"@)
    }

    /// Tensor cores are used where the variable is `1`.
    pub open spec fn use_mma(self) -> bool {
        var_is(self.unified_prefill_mma, "1"@)
    }

    /// The blockwise CUTLASS kernel is used unless the variable is `0`.
    pub open spec fn blockwise_enabled(self) -> bool {
        !var_is(self.fp8_gemm_cutlass_sm120, "0"@)
    }
}

/// Bytes of scale scratch that the sm_120 library asks for, for activations and
/// for weights; zero where it does not say.
#[derive(Copy, Clone, Debug, PartialEq, Eq, Structural)]
pub struct SfBytes {
    pub sfa: usize,
    pub sfb: usize,
}

/// Operands of an FP8 matrix multiplication with a scale per token and a scale
/// per channel. One of `b_chscale` and `b_scale_scalar` is not null; where
/// `b_chscale` is not null the weights are scaled by it and `b_scale_scalar`
/// points at a one.
#[derive(Copy, Clone, Debug, PartialEq, Eq, Structural)]
pub struct ChannelscaleGemm {
    pub output_f16: u64,
    pub a_fp8: u64,
    pub b_fp8: u64,
    pub a_scale: u64,
    pub b_chscale: u64,
    pub b_blockscale: u64,
    pub b_scale_scalar: u64,
    pub m: i32,
    pub n: i32,
    pub k: i32,
    /// At least `m * n` single-precision elements.
    pub scratch_f32: u64,
    pub cutlass_workspace: u64,
    pub cutlass_workspace_bytes: usize,
}

/// Smallest row count that the blockwise CUTLASS kernel takes.
pub const BLOCKWISE_M_MIN: i32 = 128;

/// A launch that scales an `m` by `n` matrix, one thread per element.
pub open spec fn scale_launch(
    kernel: KernelFn,
    data: u64,
    scale: u64,
    m: u32,
    n: u32,
    stream: u64,
) -> RawLaunch {
    RawLaunch {
        kernel,
        grid: (((m * n + 255) / 256) as u32, 1, 1),
        block: (256, 1, 1),
        shared_mem_bytes: 0,
        stream,
        args: KernelArgs::Scale(ScaleArgs { data, scale, m: m as i32, n: n as i32 }),
    }
}

/// Multiplies each column of an `m` by `n` matrix by its scale.
pub fn launch_scale_cols_f32(
    kernel: KernelFn,
    data: u64,
    scale: u64,
    m: u32,
    n: u32,
    stream: u64,
) -> (r: RawLaunch)
    requires
        m * n + 255 <= u32::MAX,
    ensures
        r == scale_launch(kernel, data, scale, m, n, stream),
{
    proof {
        assert(m * n >= 0) by (nonlinear_arith)
            requires
                m >= 0,
                n >= 0,
        ;
    }
    let total: u32 = m * n;
    let grid = ((total + 255) / 256, 1, 1);
    launch_raw(
        kernel,
        grid,
        (256, 1, 1),
        0,
        stream,
        KernelArgs::Scale(ScaleArgs { data, scale, m: m as i32, n: n as i32 }),
    )
}

/// Multiplies row `m` of a matrix by `scale[m] / scale[0]`. A multiplication
/// that took one scale for the whole activation has applied `scale[0]` to every
/// row; this makes it the scale of the row.
pub fn launch_scale_rows_f32_ratio(
    kernel: KernelFn,
    data: u64,
    scale: u64,
    m: u32,
    n: u32,
    stream: u64,
) -> (r: RawLaunch)
    requires
        m * n + 255 <= u32::MAX,
    ensures
        r == scale_launch(kernel, data, scale, m, n, stream),
{
    proof {
        assert(m * n >= 0) by (nonlinear_arith)
            requires
                m >= 0,
                n >= 0,
        ;
    }
    let total: u32 = m * n;
    let grid = ((total + 255) / 256, 1, 1);
    launch_raw(
        kernel,
        grid,
        (256, 1, 1),
        0,
        stream,
        KernelArgs::Scale(ScaleArgs { data, scale, m: m as i32, n: n as i32 }),
    )
}

/// Whether a multiplication goes to the blockwise CUTLASS kernel: it is large
/// enough, its weights have two-dimensional block scales, the sm_120 library has
/// the kernels that lay scales out, and the library says how much scratch they
/// need.
pub open spec fn takes_blockwise(
    cutlass: CutlassBackend,
    g: ChannelscaleGemm,
    enabled: bool,
    sf: SfBytes,
) -> bool {
    &&& g.m >= BLOCKWISE_M_MIN
    &&& g.b_blockscale != 0
    &&& enabled
    &&& match cutlass {
        CutlassBackend::SoSm120(lib) => lib.resolved().prep_sfa is Some
            && lib.resolved().prep_sfb is Some && sf.sfa != 0 && sf.sfb != 0,
        _ => false,
    }
}

/// The next multiple of sixteen.
pub open spec fn round_up_16(n: int) -> int {
    (n + 15) / 16 * 16
}

/// A prepared layout call as an operation.
pub open spec fn prep_op(r: Result<PrepCall, RvllmError>) -> Result<LayerOp, RvllmError> {
    match r {
        Ok(call) => Ok(LayerOp::CutlassPrep(call)),
        Err(e) => Err(e),
    }
}

/// A prepared multiplication as an operation.
pub open spec fn gemm_op(r: Result<GemmCall, RvllmError>) -> Result<LayerOp, RvllmError> {
    match r {
        Ok(call) => Ok(LayerOp::CutlassGemm(call)),
        Err(e) => Err(e),
    }
}

/// The blockwise path: lay out the activation scales, lay out the weight scales
/// behind them, multiply.
pub open spec fn blockwise_run(
    cutlass: CutlassBackend,
    g: ChannelscaleGemm,
    sf: SfBytes,
    stream: u64,
) -> Run {
    let lib = cutlass->SoSm120_0;
    let sfa_ptr = g.scratch_f32;
    let sfb_ptr = (g.scratch_f32 + round_up_16(sf.sfa as int)) as u64;
    Run::issue(prep_op(lib.prep_sfa_call(g.a_scale, sfa_ptr, g.m, g.k, stream))).before(
        Run::issue(prep_op(lib.prep_sfb_call(g.b_blockscale, sfb_ptr, g.n, g.k, stream))).before(
            Run::issue(
                gemm_op(
                    cutlass.blockscale_call(
                        GemmCall {
                            entry: 0,
                            output: g.output_f16,
                            a: g.a_fp8,
                            b: g.b_fp8,
                            a_scale: sfa_ptr,
                            b_scale: sfb_ptr,
                            residual: None,
                            m: g.m,
                            n: g.n,
                            k: g.k,
                            workspace: g.cutlass_workspace,
                            workspace_size: g.cutlass_workspace_bytes,
                            stream,
                            kernel: "fp8_gemm_blockscale_sm120",
                            variant: 0,
                        },
                    ),
                ),
            ),
        ),
    )
}

/// The operands of the multiplication for cuBLASLt, writing to `out`.
pub open spec fn lt_gemm(g: ChannelscaleGemm, out: u64) -> LtGemm {
    LtGemm {
        a: g.a_fp8,
        b: g.b_fp8,
        out,
        m: g.m,
        n: g.n,
        k: g.k,
        a_scale: g.a_scale,
        b_scale: g.b_scale_scalar,
    }
}

/// The path that keeps the channel scales without CUTLASS: multiply into single
/// precision, correct the rows where there is more than one, scale the columns
/// where there are channel scales, convert.
pub open spec fn scale_cast_ops(
    kernels: Gemma4LayerKernels,
    g: ChannelscaleGemm,
    stream: u64,
) -> Seq<LayerOp> {
    let multiply = seq![LayerOp::Fp8GemmF32(lt_gemm(g, g.scratch_f32))];
    let rows = if g.m > 1 {
        seq![
            LayerOp::Raw(
                scale_launch(
                    kernels.scale_rows_f32_ratio,
                    g.scratch_f32,
                    g.a_scale,
                    g.m as u32,
                    g.n as u32,
                    stream,
                ),
            ),
        ]
    } else {
        Seq::empty()
    };
    let cols = if g.b_chscale != 0 {
        seq![
            LayerOp::Raw(
                scale_launch(
                    kernels.scale_cols_f32,
                    g.scratch_f32,
                    g.b_chscale,
                    g.m as u32,
                    g.n as u32,
                    stream,
                ),
            ),
        ]
    } else {
        Seq::empty()
    };
    let cast = seq![
        LayerOp::CastToF16 {
            kernel: kernels.f32_to_f16_sat,
            n: ((g.m * g.n) as i32) as u32,
            dst: g.output_f16,
            src: g.scratch_f32,
        },
    ];
    multiply + rows + cols + cast
}

/// The operations of a multiplication with token and channel scales.
pub open spec fn channelscale_run(
    cutlass: CutlassBackend,
    kernels: Gemma4LayerKernels,
    g: ChannelscaleGemm,
    enabled: bool,
    sf: SfBytes,
    stream: u64,
) -> Run {
    if takes_blockwise(cutlass, g, enabled, sf) {
        blockwise_run(cutlass, g, sf, stream)
    } else if cutlass is So {
        Run::issue(
            gemm_op(
                cutlass.channelscale_call(
                    GemmCall {
                        entry: 0,
                        output: g.output_f16,
                        a: g.a_fp8,
                        b: g.b_fp8,
                        a_scale: g.a_scale,
                        b_scale: g.b_chscale,
                        residual: None,
                        m: g.m,
                        n: g.n,
                        k: g.k,
                        workspace: g.cutlass_workspace,
                        workspace_size: g.cutlass_workspace_bytes,
                        stream,
                        kernel: "fp8_gemm_channelscale",
                        variant: 0,
                    },
                ),
            ),
        )
    } else if g.b_chscale != 0 {
        Run::of(scale_cast_ops(kernels, g, stream))
    } else {
        Run::of(seq![LayerOp::Fp8Gemm(lt_gemm(g, g.output_f16))])
    }
}

/// What a multiplication with token and channel scales needs of its operands:
/// there is a weight scale, and on the path that is taken the addresses and
/// element counts can be represented.
pub open spec fn channelscale_fits(
    cutlass: CutlassBackend,
    g: ChannelscaleGemm,
    enabled: bool,
    sf: SfBytes,
) -> bool {
    &&& g.b_chscale != 0 || g.b_scale_scalar != 0
    &&& if takes_blockwise(cutlass, g, enabled, sf) {
        sf.sfa + 15 <= usize::MAX && g.scratch_f32 + round_up_16(sf.sfa as int) <= u64::MAX
    } else if !(cutlass is So) && g.b_chscale != 0 {
        i32::MIN <= g.m * g.n <= i32::MAX && (g.m as u32) * (g.n as u32) + 255 <= u32::MAX
    } else {
        true
    }
}

fn align_16(n: usize) -> (r: usize)
    requires
        n + 15 <= usize::MAX,
    ensures
        r == round_up_16(n as int),
{
    (n + 15) / 16 * 16
}

/// An FP8 matrix multiplication with token and channel scales.
///
/// Where `b_chscale` is not null it holds the real scales of the weights and
/// `b_scale_scalar` points at a one, so every path either takes `b_chscale` or
/// the block scales, or is not reached then.
pub fn fp8_gemm_channelscale_or_fallback(
    cutlass: &CutlassBackend,
    kernels: &Gemma4LayerKernels,
    g: ChannelscaleGemm,
    enabled: bool,
    sf: SfBytes,
    stream: u64,
    ops: &mut Vec<LayerOp>,
) -> (r: Result<(), RvllmError>)
    requires
        channelscale_fits(*cutlass, g, enabled, sf),
    ensures
        channelscale_run(*cutlass, *kernels, g, enabled, sf, stream).recorded(
            old(ops)@,
            final(ops)@,
            r,
        ),
{
    let ghost start = ops@;
    if g.m >= BLOCKWISE_M_MIN && g.b_blockscale != 0 && enabled {
        if let CutlassBackend::SoSm120(lib) = cutlass {
            let has_preps = match &lib.entries {
                Some(e) => e.prep_sfa.is_some() && e.prep_sfb.is_some(),
                None => false,
            };
            if has_preps && sf.sfa != 0 && sf.sfb != 0 {
                let sfa_ptr: u64 = g.scratch_f32;
                let sfb_ptr: u64 = g.scratch_f32 + align_16(sf.sfa) as u64;
                let sfa = lib.launch_prep_sfa(g.a_scale, sfa_ptr, g.m, g.k, stream)?;
                ops.push(LayerOp::CutlassPrep(sfa));
                let sfb = lib.launch_prep_sfb(g.b_blockscale, sfb_ptr, g.n, g.k, stream)?;
                ops.push(LayerOp::CutlassPrep(sfb));
                let gemm = cutlass.launch_fp8_gemm_blockscale_sm120(
                    g.output_f16,
                    g.a_fp8,
                    g.b_fp8,
                    sfa_ptr,
                    sfb_ptr,
                    g.m,
                    g.n,
                    g.k,
                    g.cutlass_workspace,
                    g.cutlass_workspace_bytes,
                    stream,
                )?;
                ops.push(LayerOp::CutlassGemm(gemm));
                return Ok(());
            }
        }
    }
    if let CutlassBackend::So(_) = cutlass {
        let gemm = cutlass.launch_fp8_gemm_channelscale(
            g.output_f16,
            g.a_fp8,
            g.b_fp8,
            g.a_scale,
            g.b_chscale,
            g.m,
            g.n,
            g.k,
            g.cutlass_workspace,
            g.cutlass_workspace_bytes,
            stream,
        )?;
        ops.push(LayerOp::CutlassGemm(gemm));
        return Ok(());
    }
    if g.b_chscale == 0 {
        ops.push(
            LayerOp::Fp8Gemm(
                LtGemm {
                    a: g.a_fp8,
                    b: g.b_fp8,
                    out: g.output_f16,
                    m: g.m,
                    n: g.n,
                    k: g.k,
                    a_scale: g.a_scale,
                    b_scale: g.b_scale_scalar,
                },
            ),
        );
        return Ok(());
    }
    ops.push(
        LayerOp::Fp8GemmF32(
            LtGemm {
                a: g.a_fp8,
                b: g.b_fp8,
                out: g.scratch_f32,
                m: g.m,
                n: g.n,
                k: g.k,
                a_scale: g.a_scale,
                b_scale: g.b_scale_scalar,
            },
        ),
    );
    if g.m > 1 {
        ops.push(
            LayerOp::Raw(
                launch_scale_rows_f32_ratio(
                    kernels.scale_rows_f32_ratio,
                    g.scratch_f32,
                    g.a_scale,
                    g.m as u32,
                    g.n as u32,
                    stream,
                ),
            ),
        );
    }
    ops.push(
        LayerOp::Raw(
            launch_scale_cols_f32(
                kernels.scale_cols_f32,
                g.scratch_f32,
                g.b_chscale,
                g.m as u32,
                g.n as u32,
                stream,
            ),
        ),
    );
    let elements: i32 = g.m * g.n;
    ops.push(
        LayerOp::CastToF16 {
            kernel: kernels.f32_to_f16_sat,
            n: elements as u32,
            dst: g.output_f16,
            src: g.scratch_f32,
        },
    );
    proof {
        assert(ops@ =~= start + scale_cast_ops(*kernels, g, stream));
    }
    Ok(())
}

/// Scale scratch of the multiplications of a layer.
#[derive(Copy, Clone, Debug, PartialEq, Eq, Structural)]
pub struct LayerSfBytes {
    pub qkv: SfBytes,
    pub o: SfBytes,
    pub gate_up: SfBytes,
    pub down: SfBytes,
}

/// Everything that a forward pass of a layer is planned from.
#[derive(Copy, Clone)]
pub struct LayerCall<'a> {
    pub build: Build,
    pub dims: Gemma4LayerDims,
    pub kernels: &'a Gemma4LayerKernels,
    pub weights: &'a Gemma4LayerWeightPtrs,
    pub scratch: &'a Gemma4LayerScratch,
    pub meta: &'a Gemma4MetadataPtrs,
    pub cutlass: &'a CutlassBackend,
    pub sliding_attention: &'a AttentionBackend,
    pub global_attention: &'a AttentionBackend,
    pub env: &'a LayerEnv,
    pub sf: LayerSfBytes,
    pub residual: u64,
    pub stream: u64,
    pub phase: Gemma4Phase,
}

/// Largest token count for which the output, gate, up and down projections go
/// to the row-by-row kernel with half-precision activations.
pub const FAST_PATH_M_MAX: u32 = 16;

impl Gemma4LayerDims {
    /// Width of the queries.
    pub open spec fn q_dim(self) -> int {
        self.num_heads * self.head_dim
    }

    /// Width of queries, keys and values together.
    pub open spec fn qkv_rows(self) -> int {
        (self.num_heads + 2 * self.num_kv_heads) * self.head_dim
    }

    /// Bytes of a half-precision activation.
    pub open spec fn activation_bytes(self) -> int {
        self.num_tokens * self.hidden * 2
    }

    /// Whether the projection widths can be represented.
    pub open spec fn widths_fit(self) -> bool {
        &&& self.num_heads + 2 * self.num_kv_heads <= u32::MAX
        &&& self.qkv_rows() <= u32::MAX
    }

    /// Tokens to the left that a query attends to besides its own; all of them
    /// for a negative number.
    pub open spec fn window_left(self) -> i32 {
        match self.layer_type {
            Gemma4LayerType::SlidingAttention => ((self.sliding_window as i32) - 1) as i32,
            Gemma4LayerType::GlobalAttention => -1i32,
        }
    }

    fn q_width(&self) -> (r: u32)
        requires
            self.widths_fit(),
        ensures
            r == self.q_dim(),
    {
        proof {
            widths_are_ordered(*self);
        }
        self.num_heads * self.head_dim
    }

    fn qkv_width(&self) -> (r: u32)
        requires
            self.widths_fit(),
        ensures
            r == self.qkv_rows(),
    {
        proof {
            widths_are_ordered(*self);
        }
        (self.num_heads + 2 * self.num_kv_heads) * self.head_dim
    }
}

/// The query width is at most the width of queries, keys and values, which is
/// the query width and twice the key width.
pub proof fn widths_are_ordered(dims: Gemma4LayerDims)
    ensures
        0 <= dims.q_dim() <= dims.qkv_rows(),
        dims.qkv_rows() == dims.q_dim() + 2 * (dims.num_kv_heads * dims.head_dim),
{
    let h = dims.num_heads as int;
    let g = dims.num_kv_heads as int;
    let d = dims.head_dim as int;
    assert(0 <= h * d && 0 <= g * d && (h + 2 * g) * d == h * d + 2 * (g * d)) by (nonlinear_arith)
        requires
            h >= 0,
            g >= 0,
            d >= 0,
    ;
}

/// What the sm_120 library is to be asked about the scale scratch of a
/// multiplication.
#[derive(Copy, Clone, Debug, PartialEq, Eq, Structural)]
pub struct SfQuery {
    pub sfa: SizeOf,
    pub sfb: SizeOf,
}

/// The questions of a layer.
#[derive(Copy, Clone, Debug, PartialEq, Eq, Structural)]
pub struct LayerSfQueries {
    pub qkv: SfQuery,
    pub o: SfQuery,
    pub gate_up: SfQuery,
    pub down: SfQuery,
}

/// The question about an `m` by `n` multiplication over `k`. No library, no
/// scratch.
pub open spec fn sf_query_of(cutlass: CutlassBackend, m: u32, n: u32, k: u32) -> SfQuery {
    match cutlass {
        CutlassBackend::SoSm120(lib) => SfQuery {
            sfa: lib.sfa_query(m as i32, k as i32),
            sfb: lib.sfb_query(n as i32, k as i32),
        },
        _ => SfQuery { sfa: SizeOf::Bytes(0), sfb: SizeOf::Bytes(0) },
    }
}

fn sf_query(cutlass: &CutlassBackend, m: u32, n: u32, k: u32) -> (r: SfQuery)
    ensures
        r == sf_query_of(*cutlass, m, n, k),
{
    match cutlass {
        CutlassBackend::SoSm120(lib) => SfQuery {
            sfa: lib.sfa_bytes(m as i32, k as i32),
            sfb: lib.sfb_bytes(n as i32, k as i32),
        },
        _ => SfQuery { sfa: SizeOf::Bytes(0), sfb: SizeOf::Bytes(0) },
    }
}

/// What is to be asked before a layer is planned. The answers are the scale
/// scratch of its four projections.
pub fn layer_sf_queries(dims: &Gemma4LayerDims, cutlass: &CutlassBackend) -> (r: LayerSfQueries)
    requires
        dims.widths_fit(),
        2 * dims.intermediate <= u32::MAX,
    ensures
        r == (LayerSfQueries {
            qkv: sf_query_of(*cutlass, dims.num_tokens, dims.qkv_rows() as u32, dims.hidden),
            o: sf_query_of(*cutlass, dims.num_tokens, dims.hidden, dims.q_dim() as u32),
            gate_up: sf_query_of(
                *cutlass,
                dims.num_tokens,
                (2 * dims.intermediate) as u32,
                dims.hidden,
            ),
            down: sf_query_of(*cutlass, dims.num_tokens, dims.hidden, dims.intermediate),
        }),
{
    LayerSfQueries {
        qkv: sf_query(cutlass, dims.num_tokens, dims.qkv_width(), dims.hidden),
        o: sf_query(cutlass, dims.num_tokens, dims.hidden, dims.q_width()),
        gate_up: sf_query(cutlass, dims.num_tokens, 2 * dims.intermediate, dims.hidden),
        down: sf_query(cutlass, dims.num_tokens, dims.hidden, dims.intermediate),
    }
}

impl<'a> LayerCall<'a> {
    /// The row-by-row kernel is loaded.
    pub open spec fn has_gemv(self) -> bool {
        self.kernels.fp8_gemv_wpr_native_f16in is Some
    }

    /// The backend of the layer's attention.
    pub open spec fn attention(self) -> AttentionBackend {
        match self.dims.layer_type {
            Gemma4LayerType::SlidingAttention => *self.sliding_attention,
            Gemma4LayerType::GlobalAttention => *self.global_attention,
        }
    }

    /// Step 1 is skipped where step 2 will read half-precision activations.
    pub open spec fn skips_attn_quant(self) -> bool {
        &&& self.build is Cuda
        &&& self.dims.num_tokens == 1
        &&& self.weights.qkv_chscale != 0
        &&& self.weights.qkv_blockscale != 0
        &&& self.weights.qkv_f16 == 0
        &&& self.has_gemv()
    }

    /// A norm of the residual into the FP8 hidden state.
    pub open spec fn norm_quant(self, gamma: u64) -> LayerOp {
        LayerOp::RmsnormFp8Quant {
            quant: Quantize {
                kernel: self.kernels.fused_rmsnorm_fp8_quant,
                num_tokens: self.dims.num_tokens,
                dim: self.dims.hidden,
                out_fp8: self.scratch.hidden_fp8,
                out_scale: self.scratch.hidden_scale,
                input: self.residual,
            },
            gamma,
            eps: self.dims.rms_eps,
        }
    }

    /// A half-precision norm of the residual into `dst`.
    pub open spec fn norm_f16(self, dst: u64, gamma: u64) -> Seq<LayerOp> {
        seq![
            LayerOp::CopyDtoD {
                dst,
                src: self.residual,
                bytes: self.dims.activation_bytes() as usize,
            },
            LayerOp::RmsnormInplace {
                kernel: self.kernels.fused_rmsnorm,
                num_tokens: self.dims.num_tokens,
                hidden: self.dims.hidden,
                eps: self.dims.rms_eps,
                data: dst,
                gamma,
            },
        ]
    }

    /// Step 1: the input norm.
    pub open spec fn attn_input_ops(self) -> Seq<LayerOp> {
        if self.skips_attn_quant() {
            Seq::empty()
        } else {
            seq![self.norm_quant(self.weights.attn_norm_gamma)]
        }
    }

    fn push_norm_quant(&self, gamma: u64, ops: &mut Vec<LayerOp>)
        ensures
            final(ops)@ == old(ops)@.push(self.norm_quant(gamma)),
    {
        ops.push(
            LayerOp::RmsnormFp8Quant {
                quant: Quantize {
                    kernel: self.kernels.fused_rmsnorm_fp8_quant,
                    num_tokens: self.dims.num_tokens,
                    dim: self.dims.hidden,
                    out_fp8: self.scratch.hidden_fp8,
                    out_scale: self.scratch.hidden_scale,
                    input: self.residual,
                },
                gamma,
                eps: self.dims.rms_eps,
            },
        );
    }

    fn push_norm_f16(&self, dst: u64, gamma: u64, ops: &mut Vec<LayerOp>)
        requires
            self.dims.activation_bytes() <= u32::MAX,
        ensures
            final(ops)@ == old(ops)@ + self.norm_f16(dst, gamma),
    {
        proof {
            assert(self.dims.num_tokens * self.dims.hidden >= 0) by (nonlinear_arith)
                requires
                    self.dims.num_tokens >= 0,
                    self.dims.hidden >= 0,
            ;
        }
        let bytes: u32 = self.dims.num_tokens * self.dims.hidden * 2;
        let ghost start = ops@;
        ops.push(LayerOp::CopyDtoD { dst, src: self.residual, bytes: bytes as usize });
        ops.push(
            LayerOp::RmsnormInplace {
                kernel: self.kernels.fused_rmsnorm,
                num_tokens: self.dims.num_tokens,
                hidden: self.dims.hidden,
                eps: self.dims.rms_eps,
                data: dst,
                gamma,
            },
        );
        proof {
            assert(ops@ =~= start + self.norm_f16(dst, gamma));
        }
    }

    fn attn_input(&self, ops: &mut Vec<LayerOp>)
        ensures
            final(ops)@ == old(ops)@ + self.attn_input_ops(),
    {
        let skip = match self.build {
            Build::Cuda => self.dims.num_tokens == 1 && self.weights.qkv_chscale != 0
                && self.weights.qkv_blockscale != 0 && self.weights.qkv_f16 == 0
                && self.kernels.fp8_gemv_wpr_native_f16in.is_some(),
            Build::Host => false,
        };
        if !skip {
            self.push_norm_quant(self.weights.attn_norm_gamma, ops);
        }
    }

    /// The query, key and value projection as a multiplication with channel
    /// scales.
    pub open spec fn qkv_gemm(self) -> ChannelscaleGemm {
        ChannelscaleGemm {
            output_f16: self.scratch.q_out,
            a_fp8: self.scratch.hidden_fp8,
            b_fp8: self.weights.qkv_fp8,
            a_scale: self.scratch.hidden_scale,
            b_chscale: self.weights.qkv_chscale,
            b_blockscale: self.weights.qkv_blockscale,
            b_scale_scalar: self.weights.qkv_scale,
            m: self.dims.num_tokens as i32,
            n: (self.dims.qkv_rows() as u32) as i32,
            k: self.dims.hidden as i32,
            scratch_f32: self.scratch.gemm_f32_tmp,
            cutlass_workspace: self.scratch.cutlass_workspace,
            cutlass_workspace_bytes: self.scratch.cutlass_workspace_bytes,
        }
    }

    /// Whether the query, key and value projection reads half-precision
    /// activations against FP8 weights.
    pub open spec fn qkv_is_fast(self) -> bool {
        self.weights.qkv_f16 == 0 && self.weights.qkv_blockscale != 0 && self.dims.num_tokens == 1
            && self.has_gemv()
    }

    /// Step 2: the projection to queries, keys and values.
    pub open spec fn qkv_run(self) -> Run {
        let w = self.weights;
        let s = self.scratch;
        if self.build is Host {
            Run::of(Seq::empty())
        } else if w.qkv_f16 != 0 {
            Run::of(
                self.norm_f16(s.delta_f16, w.attn_norm_gamma) + seq![
                    LayerOp::F16GemmF32 {
                        a: s.delta_f16,
                        b: w.qkv_f16,
                        out: s.gemm_f32_tmp,
                        m: self.dims.num_tokens as i32,
                        n: (self.dims.qkv_rows() as u32) as i32,
                        k: self.dims.hidden as i32,
                    },
                    LayerOp::CastToF16 {
                        kernel: self.kernels.f32_to_f16_sat,
                        n: (self.dims.num_tokens * self.dims.qkv_rows()) as u32,
                        dst: s.q_out,
                        src: s.gemm_f32_tmp,
                    },
                ],
            )
        } else if self.qkv_is_fast() {
            Run::of(
                self.norm_f16(s.delta_f16, w.attn_norm_gamma) + seq![
                    LayerOp::Fp8GemvF16In {
                        kernel: self.kernels.fp8_gemv_wpr_native_f16in->0,
                        m: self.dims.num_tokens,
                        n: self.dims.qkv_rows() as u32,
                        k: self.dims.hidden,
                        out: s.q_out,
                        weight: w.qkv_fp8,
                        blockscale: w.qkv_blockscale,
                        input: s.delta_f16,
                    },
                ],
            )
        } else if w.qkv_chscale != 0 {
            channelscale_run(
                *self.cutlass,
                *self.kernels,
                self.qkv_gemm(),
                self.env.blockwise_enabled(),
                self.sf.qkv,
                self.stream,
            )
        } else {
            Run::of(seq![LayerOp::Fp8Gemm(lt_gemm(self.qkv_gemm(), s.q_out))])
        }
    }

    /// Whether the sizes of step 2 can be represented.
    pub open spec fn qkv_fits(self) -> bool {
        let w = self.weights;
        if self.build is Host {
            true
        } else if w.qkv_f16 != 0 {
            self.dims.activation_bytes() <= u32::MAX && self.dims.num_tokens
                * self.dims.qkv_rows() <= u32::MAX
        } else if self.qkv_is_fast() {
            self.dims.activation_bytes() <= u32::MAX
        } else if w.qkv_chscale != 0 {
            channelscale_fits(
                *self.cutlass,
                self.qkv_gemm(),
                self.env.blockwise_enabled(),
                self.sf.qkv,
            )
        } else {
            true
        }
    }

    fn qkv_projection(&self, ops: &mut Vec<LayerOp>) -> (r: Result<(), RvllmError>)
        requires
            self.dims.widths_fit(),
            self.qkv_fits(),
        ensures
            self.qkv_run().recorded(old(ops)@, final(ops)@, r),
    {
        if let Build::Host = self.build {
            return Ok(());
        }
        let w = self.weights;
        let s = self.scratch;
        let qkv_rows: u32 = self.dims.qkv_width();
        if w.qkv_f16 != 0 {
            self.push_norm_f16(s.delta_f16, w.attn_norm_gamma, ops);
            ops.push(
                LayerOp::F16GemmF32 {
                    a: s.delta_f16,
                    b: w.qkv_f16,
                    out: s.gemm_f32_tmp,
                    m: self.dims.num_tokens as i32,
                    n: qkv_rows as i32,
                    k: self.dims.hidden as i32,
                },
            );
            proof {
                assert(self.dims.num_tokens * qkv_rows >= 0) by (nonlinear_arith)
                    requires
                        self.dims.num_tokens >= 0,
                        qkv_rows >= 0,
                ;
            }
            ops.push(
                LayerOp::CastToF16 {
                    kernel: self.kernels.f32_to_f16_sat,
                    n: self.dims.num_tokens * qkv_rows,
                    dst: s.q_out,
                    src: s.gemm_f32_tmp,
                },
            );
            return Ok(());
        }
        if w.qkv_blockscale != 0 && self.dims.num_tokens == 1 {
            if let Some(fn_gemv) = self.kernels.fp8_gemv_wpr_native_f16in {
                self.push_norm_f16(s.delta_f16, w.attn_norm_gamma, ops);
                ops.push(
                    LayerOp::Fp8GemvF16In {
                        kernel: fn_gemv,
                        m: self.dims.num_tokens,
                        n: qkv_rows,
                        k: self.dims.hidden,
                        out: s.q_out,
                        weight: w.qkv_fp8,
                        blockscale: w.qkv_blockscale,
                        input: s.delta_f16,
                    },
                );
                return Ok(());
            }
        }
        let g = ChannelscaleGemm {
            output_f16: s.q_out,
            a_fp8: s.hidden_fp8,
            b_fp8: w.qkv_fp8,
            a_scale: s.hidden_scale,
            b_chscale: w.qkv_chscale,
            b_blockscale: w.qkv_blockscale,
            b_scale_scalar: w.qkv_scale,
            m: self.dims.num_tokens as i32,
            n: qkv_rows as i32,
            k: self.dims.hidden as i32,
            scratch_f32: s.gemm_f32_tmp,
            cutlass_workspace: s.cutlass_workspace,
            cutlass_workspace_bytes: s.cutlass_workspace_bytes,
        };
        if w.qkv_chscale != 0 {
            return fp8_gemm_channelscale_or_fallback(
                self.cutlass,
                self.kernels,
                g,
                !is_set_to(&self.env.fp8_gemm_cutlass_sm120, "0"),
                self.sf.qkv,
                self.stream,
                ops,
            );
        }
        push_fp8_gemm(g, s.q_out, ops);
        Ok(())
    }
}

fn push_fp8_gemm(g: ChannelscaleGemm, out: u64, ops: &mut Vec<LayerOp>)
    ensures
        final(ops)@ == old(ops)@.push(LayerOp::Fp8Gemm(lt_gemm(g, out))),
{
    ops.push(
        LayerOp::Fp8Gemm(
            LtGemm {
                a: g.a_fp8,
                b: g.b_fp8,
                out,
                m: g.m,
                n: g.n,
                k: g.k,
                a_scale: g.a_scale,
                b_scale: g.b_scale_scalar,
            },
        ),
    );
}

impl<'a> LayerCall<'a> {
    /// Step 3: norms of queries, keys and values. The sources lie interleaved in
    /// the projection's output; the results are compact.
    pub open spec fn qkv_norm_op(self) -> LayerOp {
        LayerOp::QkvRmsnorm(
            QkvNorm {
                kernel: self.kernels.fused_qkv_rmsnorm,
                num_tokens: self.dims.num_tokens,
                num_heads: self.dims.num_heads,
                num_kv_heads: self.dims.num_kv_heads,
                head_dim: self.dims.head_dim,
                eps: self.dims.rms_eps,
                src_row_stride: self.dims.qkv_rows() as u32,
                q_in: self.scratch.q_out,
                k_in: self.scratch.k_out,
                v_in: self.scratch.v_out,
                q_out: self.scratch.q_normed,
                k_out: self.scratch.k_normed,
                v_out: self.scratch.v_normed,
                q_gamma: self.weights.q_norm_gamma,
                k_gamma: self.weights.k_norm_gamma,
            },
        )
    }

    fn qkv_norm(&self, ops: &mut Vec<LayerOp>)
        requires
            self.dims.widths_fit(),
        ensures
            final(ops)@ == old(ops)@.push(self.qkv_norm_op()),
    {
        ops.push(
            LayerOp::QkvRmsnorm(
                QkvNorm {
                    kernel: self.kernels.fused_qkv_rmsnorm,
                    num_tokens: self.dims.num_tokens,
                    num_heads: self.dims.num_heads,
                    num_kv_heads: self.dims.num_kv_heads,
                    head_dim: self.dims.head_dim,
                    eps: self.dims.rms_eps,
                    src_row_stride: self.dims.qkv_width(),
                    q_in: self.scratch.q_out,
                    k_in: self.scratch.k_out,
                    v_in: self.scratch.v_out,
                    q_out: self.scratch.q_normed,
                    k_out: self.scratch.k_normed,
                    v_out: self.scratch.v_normed,
                    q_gamma: self.weights.q_norm_gamma,
                    k_gamma: self.weights.k_norm_gamma,
                },
            ),
        );
    }
}

/// Partial RoPE with a half-precision KV cache: one block per token and head,
/// one thread per rotated pair, at least a warp.
pub open spec fn rope_f16kv_launch(
    dims: Gemma4LayerDims,
    kernels: Gemma4LayerKernels,
    scratch: Gemma4LayerScratch,
    meta: Gemma4MetadataPtrs,
    stream: u64,
) -> RawLaunch {
    RawLaunch {
        kernel: kernels.fused_rope_partial_f16kv,
        grid: (
            dims.num_tokens,
            if dims.num_heads >= dims.num_kv_heads {
                dims.num_heads
            } else {
                dims.num_kv_heads
            },
            1,
        ),
        block: (
            if dims.head_dim / 2 >= 32 {
                dims.head_dim / 2
            } else {
                32
            },
            1,
            1,
        ),
        shared_mem_bytes: 0,
        stream,
        args: KernelArgs::RopeF16Kv(
            RopeF16KvArgs {
                q_in: scratch.q_normed,
                k_in: scratch.k_normed,
                v_in: scratch.v_normed,
                q_out: scratch.q_normed,
                k_cache: scratch.k_cache,
                v_cache: scratch.v_cache,
                cos: meta.cos,
                sin: meta.sin,
                positions: meta.positions,
                slot_mapping: meta.slot_mapping,
                num_tokens: dims.num_tokens as i32,
                num_heads: dims.num_heads as i32,
                num_kv_heads: dims.num_kv_heads as i32,
                head_dim: dims.head_dim as i32,
                rotary_dim: dims.rotary_dim as i32,
            },
        ),
    }
}

/// Partial RoPE with a half-precision KV cache.
pub fn rope_f16kv(
    dims: Gemma4LayerDims,
    kernels: &Gemma4LayerKernels,
    scratch: &Gemma4LayerScratch,
    meta: &Gemma4MetadataPtrs,
    stream: u64,
) -> (r: RawLaunch)
    ensures
        r == rope_f16kv_launch(dims, *kernels, *scratch, *meta, stream),
{
    let args = RopeF16KvArgs {
        q_in: scratch.q_normed,
        k_in: scratch.k_normed,
        v_in: scratch.v_normed,
        q_out: scratch.q_normed,
        k_cache: scratch.k_cache,
        v_cache: scratch.v_cache,
        cos: meta.cos,
        sin: meta.sin,
        positions: meta.positions,
        slot_mapping: meta.slot_mapping,
        num_tokens: dims.num_tokens as i32,
        num_heads: dims.num_heads as i32,
        num_kv_heads: dims.num_kv_heads as i32,
        head_dim: dims.head_dim as i32,
        rotary_dim: dims.rotary_dim as i32,
    };
    let max_heads: u32 = if dims.num_heads >= dims.num_kv_heads {
        dims.num_heads
    } else {
        dims.num_kv_heads
    };
    let threads: u32 = if dims.head_dim / 2 >= 32 {
        dims.head_dim / 2
    } else {
        32
    };
    launch_raw(
        kernels.fused_rope_partial_f16kv,
        (dims.num_tokens, max_heads, 1),
        (threads, 1, 1),
        0,
        stream,
        KernelArgs::RopeF16Kv(args),
    )
}

/// Partial RoPE with an FP8 KV cache, as an operation.
pub open spec fn rope_fp8kv_op(
    dims: Gemma4LayerDims,
    kernels: Gemma4LayerKernels,
    scratch: Gemma4LayerScratch,
    meta: Gemma4MetadataPtrs,
) -> LayerOp {
    LayerOp::RopePartialFp8Kv(
        RopeFp8Kv {
            kernel: kernels.fused_rope_partial_fp8kv,
            num_tokens: dims.num_tokens,
            num_heads: dims.num_heads,
            num_kv_heads: dims.num_kv_heads,
            head_dim: dims.head_dim,
            rotary_dim: dims.rotary_dim,
            q_in: scratch.q_normed,
            k_in: scratch.k_normed,
            v_in: scratch.v_normed,
            q_fp8: scratch.q_fp8,
            k_cache: scratch.k_cache,
            v_cache: scratch.v_cache,
            k_scale_cache: scratch.k_scale_cache,
            v_scale_cache: scratch.v_scale_cache,
            q_scale_cache: scratch.q_scale_cache,
            cos: meta.cos,
            sin: meta.sin,
            positions: meta.positions,
            slot_mapping: meta.slot_mapping,
            q_scale: scratch.q_scale_ptr,
        },
    )
}

/// Partial RoPE with an FP8 KV cache.
pub fn rope_fp8kv(
    dims: Gemma4LayerDims,
    kernels: &Gemma4LayerKernels,
    scratch: &Gemma4LayerScratch,
    meta: &Gemma4MetadataPtrs,
) -> (r: LayerOp)
    ensures
        r == rope_fp8kv_op(dims, *kernels, *scratch, *meta),
{
    LayerOp::RopePartialFp8Kv(
        RopeFp8Kv {
            kernel: kernels.fused_rope_partial_fp8kv,
            num_tokens: dims.num_tokens,
            num_heads: dims.num_heads,
            num_kv_heads: dims.num_kv_heads,
            head_dim: dims.head_dim,
            rotary_dim: dims.rotary_dim,
            q_in: scratch.q_normed,
            k_in: scratch.k_normed,
            v_in: scratch.v_normed,
            q_fp8: scratch.q_fp8,
            k_cache: scratch.k_cache,
            v_cache: scratch.v_cache,
            k_scale_cache: scratch.k_scale_cache,
            v_scale_cache: scratch.v_scale_cache,
            q_scale_cache: scratch.q_scale_cache,
            cos: meta.cos,
            sin: meta.sin,
            positions: meta.positions,
            slot_mapping: meta.slot_mapping,
            q_scale: scratch.q_scale_ptr,
        },
    )
}

impl<'a> LayerCall<'a> {
    /// The shape of a decode over `num_seqs` sequences.
    pub open spec fn decode_params(self, num_seqs: u32) -> PagedDecodeParams {
        PagedDecodeParams {
            num_seqs,
            num_heads: self.dims.num_heads,
            num_kv_heads: self.dims.num_kv_heads,
            head_dim: self.dims.head_dim,
            block_size: self.dims.block_size,
            max_blocks_per_seq: self.dims.max_blocks_per_seq,
            num_blocks_total: self.dims.num_blocks_total,
            scale: self.dims.attn_scale,
            window_size_left: self.dims.window_left(),
        }
    }

    /// Steps 4 and 5 of a decode step.
    pub open spec fn decode_ops(self) -> Seq<LayerOp> {
        let s = self.scratch;
        if self.dims.f16_kv {
            seq![
                LayerOp::Raw(
                    rope_f16kv_launch(self.dims, *self.kernels, *s, *self.meta, self.stream),
                ),
                LayerOp::PagedDecode(
                    DecodeF16 {
                        params: self.decode_params(self.dims.num_tokens),
                        out: s.attn_out,
                        q: s.q_normed,
                        k_cache: s.k_cache,
                        v_cache: s.v_cache,
                        block_tables: self.meta.block_tables,
                        context_lens: self.meta.context_lens,
                        workspace: s.fa3_workspace,
                    },
                ),
            ]
        } else {
            seq![
                rope_fp8kv_op(self.dims, *self.kernels, *s, *self.meta),
                LayerOp::PagedDecodeFp8(
                    DecodeFp8 {
                        params: self.decode_params(self.dims.num_tokens),
                        out: s.attn_out,
                        q_fp8: s.q_fp8,
                        k_cache: s.k_cache,
                        v_cache: s.v_cache,
                        k_scale_cache: s.k_scale_cache,
                        v_scale_cache: s.v_scale_cache,
                        q_scale_cache: s.q_scale_cache,
                        k_descale_fallback: 0,
                        v_descale_fallback: 0,
                        block_tables: self.meta.block_tables,
                        context_lens: self.meta.context_lens,
                        workspace: s.fa3_workspace,
                        q_descale: s.q_scale_ptr,
                    },
                ),
            ]
        }
    }

    /// Whether a prefill takes the unified kernel: it is enabled and loaded, and
    /// there is more than one token.
    pub open spec fn takes_unified(self) -> bool {
        &&& self.env.unified_enabled()
        &&& match self.attention() {
            AttentionBackend::Fa2Ptx(fa2) => fa2.unified_prefill() is Some,
            _ => false,
        }
        &&& self.dims.num_tokens > 1
    }

    /// The shape of the unified prefill: one sequence.
    pub open spec fn prefill_params(self) -> PagedPrefillParams {
        PagedPrefillParams {
            num_tokens: self.dims.num_tokens,
            num_seqs: 1,
            num_heads: self.dims.num_heads,
            num_kv_heads: self.dims.num_kv_heads,
            head_dim: self.dims.head_dim,
            block_size: self.dims.block_size,
            max_blocks_per_seq: self.dims.max_blocks_per_seq,
            num_blocks_total: self.dims.num_blocks_total,
            scale: self.dims.attn_scale,
            window_size_left: self.dims.window_left(),
        }
    }

    /// The tiling of the unified prefill: the query rows of a block are shared
    /// among the query heads of a KV head.
    pub open spec fn unified_params(self) -> UnifiedPrefillParams {
        let per_kv = self.dims.num_heads / self.dims.num_kv_heads;
        UnifiedPrefillParams {
            num_queries_per_kv: per_kv,
            tile_size: tile_size_for(self.dims.head_dim),
            block_q: UNIFIED_PREFILL_BLOCK_M / (if per_kv >= 1 {
                per_kv
            } else {
                1
            }),
            use_mma: self.env.use_mma(),
        }
    }

    /// The pointers of the unified prefill.
    pub open spec fn unified_ptrs(self, cu_seqlens_q: u64) -> UnifiedPrefillPtrs {
        UnifiedPrefillPtrs {
            o_f16: self.scratch.attn_out,
            q_fp8: self.scratch.q_fp8,
            k_cache_fp8: self.scratch.k_cache,
            v_cache_fp8: self.scratch.v_cache,
            k_scale_cache: self.scratch.k_scale_cache,
            v_scale_cache: self.scratch.v_scale_cache,
            q_scale_cache: self.scratch.q_scale_cache,
            k_descale_fallback: 0,
            v_descale_fallback: 0,
            block_tables: self.meta.block_tables,
            cu_seqlens_q,
            context_lens: self.meta.context_lens,
            q_descale_fallback: self.scratch.q_scale_ptr,
        }
    }

    /// The unified prefill, or the error for which it is refused.
    pub open spec fn unified_run(self, cu_seqlens_q: u64) -> Run {
        Run::issue(
            match unified_outcome(
                self.build,
                self.attention(),
                self.prefill_params(),
                self.unified_params(),
                self.unified_ptrs(cu_seqlens_q),
                self.stream,
            ) {
                Ok(launch) => Ok(LayerOp::UnifiedPrefill(launch)),
                Err(e) => Err(e),
            },
        )
    }

    /// The decode of query token `qi` of a prompt. Its output, query and query
    /// scales lie at the token's place; its context length is entry `qi` of the
    /// uploaded numbers.
    pub open spec fn decode_qi_op(self, cu_seqlens_q: u64, qi: int) -> LayerOp {
        let s = self.scratch;
        LayerOp::PagedDecodeFp8(
            DecodeFp8 {
                params: self.decode_params(1),
                out: (s.attn_out + qi * (self.dims.q_dim() * 2)) as u64,
                q_fp8: (s.q_fp8 + qi * self.dims.q_dim()) as u64,
                k_cache: s.k_cache,
                v_cache: s.v_cache,
                k_scale_cache: s.k_scale_cache,
                v_scale_cache: s.v_scale_cache,
                q_scale_cache: if s.q_scale_cache != 0 {
                    (s.q_scale_cache + qi * (self.dims.num_heads * 4)) as u64
                } else {
                    0
                },
                k_descale_fallback: 0,
                v_descale_fallback: 0,
                block_tables: self.meta.block_tables,
                context_lens: (cu_seqlens_q + qi * 4) as u64,
                workspace: s.fa3_workspace,
                q_descale: s.q_scale_ptr,
            },
        )
    }

    /// A prefill as one decode per query token, over uploaded context lengths.
    pub open spec fn per_qi_ops(self, cu_seqlens_q: u64) -> Seq<LayerOp> {
        seq![LayerOp::UploadCounting { dst: cu_seqlens_q, upto: self.dims.num_tokens as i32 }]
            + Seq::new(
            self.dims.num_tokens as nat,
            |qi: int| self.decode_qi_op(cu_seqlens_q, qi),
        )
    }

    /// Steps 4 and 5: RoPE and attention. A prefill always uses the FP8 KV
    /// cache.
    pub open spec fn attention_run(self) -> Run {
        if self.build is Host {
            Run::of(Seq::empty())
        } else {
            match self.phase {
                Gemma4Phase::Decode => Run::of(self.decode_ops()),
                Gemma4Phase::Prefill { cu_seqlens_q, .. } => Run::of(
                    seq![rope_fp8kv_op(self.dims, *self.kernels, *self.scratch, *self.meta)],
                ).before(
                    if self.takes_unified() {
                        self.unified_run(cu_seqlens_q)
                    } else {
                        Run::of(self.per_qi_ops(cu_seqlens_q))
                    },
                ),
            }
        }
    }

    /// Whether `base + stride * i` can be represented for every token `i`.
    pub open spec fn strides_fit(self, base: u64, stride: int) -> bool {
        self.dims.num_tokens > 0 ==> base + (self.dims.num_tokens - 1) * stride <= u64::MAX
    }

    /// Whether the sizes of steps 4 and 5 can be represented.
    pub open spec fn attention_fits(self) -> bool {
        &&& self.dims.layer_type is SlidingAttention ==> self.dims.sliding_window != 0x8000_0000
        &&& if self.build is Host {
            true
        } else {
            match self.phase {
                Gemma4Phase::Decode => true,
                Gemma4Phase::Prefill { cu_seqlens_q, .. } => if self.takes_unified() {
                    &&& self.dims.num_kv_heads > 0
                    &&& unified_refusal(
                        self.build,
                        self.attention(),
                        self.prefill_params(),
                        self.stream,
                    ) is None ==> unified_sizes_fit(self.prefill_params(), self.unified_params())
                } else {
                    &&& self.strides_fit(self.scratch.attn_out, self.dims.q_dim() * 2)
                    &&& self.strides_fit(self.scratch.q_fp8, self.dims.q_dim())
                    &&& self.scratch.q_scale_cache != 0 ==> self.strides_fit(
                        self.scratch.q_scale_cache,
                        self.dims.num_heads * 4,
                    )
                    &&& self.strides_fit(cu_seqlens_q, 4)
                },
            }
        }
    }

    fn window_size_left(&self) -> (r: i32)
        requires
            self.dims.layer_type is SlidingAttention ==> self.dims.sliding_window != 0x8000_0000,
        ensures
            r == self.dims.window_left(),
    {
        match self.dims.layer_type {
            Gemma4LayerType::SlidingAttention => {
                let w: u32 = self.dims.sliding_window;
                proof {
                    assert(w != 0x8000_0000u32 ==> w as i32 != i32::MIN) by (bit_vector);
                }
                (w as i32) - 1
            },
            Gemma4LayerType::GlobalAttention => -1,
        }
    }

    fn paged_decode_params(&self, num_seqs: u32) -> (r: PagedDecodeParams)
        requires
            self.dims.layer_type is SlidingAttention ==> self.dims.sliding_window != 0x8000_0000,
        ensures
            r == self.decode_params(num_seqs),
    {
        PagedDecodeParams {
            num_seqs,
            num_heads: self.dims.num_heads,
            num_kv_heads: self.dims.num_kv_heads,
            head_dim: self.dims.head_dim,
            block_size: self.dims.block_size,
            max_blocks_per_seq: self.dims.max_blocks_per_seq,
            num_blocks_total: self.dims.num_blocks_total,
            scale: self.dims.attn_scale,
            window_size_left: self.window_size_left(),
        }
    }

    fn push_decode(&self, ops: &mut Vec<LayerOp>)
        requires
            self.dims.layer_type is SlidingAttention ==> self.dims.sliding_window != 0x8000_0000,
        ensures
            final(ops)@ == old(ops)@ + self.decode_ops(),
    {
        let ghost start = ops@;
        let s = self.scratch;
        let params = self.paged_decode_params(self.dims.num_tokens);
        if self.dims.f16_kv {
            ops.push(
                LayerOp::Raw(rope_f16kv(self.dims, self.kernels, s, self.meta, self.stream)),
            );
            ops.push(
                LayerOp::PagedDecode(
                    DecodeF16 {
                        params,
                        out: s.attn_out,
                        q: s.q_normed,
                        k_cache: s.k_cache,
                        v_cache: s.v_cache,
                        block_tables: self.meta.block_tables,
                        context_lens: self.meta.context_lens,
                        workspace: s.fa3_workspace,
                    },
                ),
            );
        } else {
            ops.push(rope_fp8kv(self.dims, self.kernels, s, self.meta));
            ops.push(
                LayerOp::PagedDecodeFp8(
                    DecodeFp8 {
                        params,
                        out: s.attn_out,
                        q_fp8: s.q_fp8,
                        k_cache: s.k_cache,
                        v_cache: s.v_cache,
                        k_scale_cache: s.k_scale_cache,
                        v_scale_cache: s.v_scale_cache,
                        q_scale_cache: s.q_scale_cache,
                        k_descale_fallback: 0,
                        v_descale_fallback: 0,
                        block_tables: self.meta.block_tables,
                        context_lens: self.meta.context_lens,
                        workspace: s.fa3_workspace,
                        q_descale: s.q_scale_ptr,
                    },
                ),
            );
        }
        proof {
            assert(ops@ =~= start + self.decode_ops());
        }
    }

    fn chosen_attention(&self) -> (r: &AttentionBackend)
        ensures
            *r == self.attention(),
    {
        match self.dims.layer_type {
            Gemma4LayerType::SlidingAttention => self.sliding_attention,
            Gemma4LayerType::GlobalAttention => self.global_attention,
        }
    }

    fn push_unified(&self, cu_seqlens_q: u64, ops: &mut Vec<LayerOp>) -> (r: Result<
        (),
        RvllmError,
    >)
        requires
            self.phase matches Gemma4Phase::Prefill { cu_seqlens_q: c, .. } && c == cu_seqlens_q,
            self.build is Cuda,
            self.takes_unified(),
            self.attention_fits(),
        ensures
            self.unified_run(cu_seqlens_q).recorded(old(ops)@, final(ops)@, r),
    {
        let params = PagedPrefillParams {
            num_tokens: self.dims.num_tokens,
            num_seqs: 1,
            num_heads: self.dims.num_heads,
            num_kv_heads: self.dims.num_kv_heads,
            head_dim: self.dims.head_dim,
            block_size: self.dims.block_size,
            max_blocks_per_seq: self.dims.max_blocks_per_seq,
            num_blocks_total: self.dims.num_blocks_total,
            scale: self.dims.attn_scale,
            window_size_left: self.window_size_left(),
        };
        let tile_size: u32 = if self.dims.head_dim <= 256 {
            32
        } else {
            16
        };
        let num_queries_per_kv: u32 = self.dims.num_heads / self.dims.num_kv_heads;
        let block_q: u32 = UNIFIED_PREFILL_BLOCK_M / (if num_queries_per_kv >= 1 {
            num_queries_per_kv
        } else {
            1
        });
        let unified = UnifiedPrefillParams {
            num_queries_per_kv,
            tile_size,
            block_q,
            use_mma: is_set_to(&self.env.unified_prefill_mma, "1"),
        };
        let ptrs = UnifiedPrefillPtrs {
            o_f16: self.scratch.attn_out,
            q_fp8: self.scratch.q_fp8,
            k_cache_fp8: self.scratch.k_cache,
            v_cache_fp8: self.scratch.v_cache,
            k_scale_cache: self.scratch.k_scale_cache,
            v_scale_cache: self.scratch.v_scale_cache,
            q_scale_cache: self.scratch.q_scale_cache,
            k_descale_fallback: 0,
            v_descale_fallback: 0,
            block_tables: self.meta.block_tables,
            cu_seqlens_q,
            context_lens: self.meta.context_lens,
            q_descale_fallback: self.scratch.q_scale_ptr,
        };
        let prefill = PagedPrefillFp8Launcher::new(self.chosen_attention());
        let launch = prefill.launch_fp8kv_unified_sm121(
            self.build,
            params,
            unified,
            ptrs,
            self.stream,
        )?;
        ops.push(LayerOp::UnifiedPrefill(launch));
        Ok(())
    }

    fn push_per_qi(&self, cu_seqlens_q: u64, ops: &mut Vec<LayerOp>)
        requires
            self.phase matches Gemma4Phase::Prefill { cu_seqlens_q: c, .. } && c == cu_seqlens_q,
            self.build is Cuda,
            self.dims.widths_fit(),
            !self.takes_unified(),
            self.attention_fits(),
        ensures
            final(ops)@ == old(ops)@ + self.per_qi_ops(cu_seqlens_q),
    {
        let ghost start = ops@;
        let s = self.scratch;
        let params = self.paged_decode_params(1);
        let q_dim: u64 = self.dims.q_width() as u64;
        let o_stride_bytes: u64 = q_dim * 2;
        let q_fp8_stride_bytes: u64 = q_dim;
        let q_scale_stride_bytes: u64 = (self.dims.num_heads as u64) * 4;
        ops.push(
            LayerOp::UploadCounting { dst: cu_seqlens_q, upto: self.dims.num_tokens as i32 },
        );
        let mut qi: u32 = 0;
        while qi < self.dims.num_tokens
            invariant
                qi <= self.dims.num_tokens,
                self.phase matches Gemma4Phase::Prefill { cu_seqlens_q: c, .. } && c
                    == cu_seqlens_q,
                self.build is Cuda,
                !self.takes_unified(),
                self.attention_fits(),
                s == self.scratch,
                params == self.decode_params(1),
                q_dim == self.dims.q_dim(),
                o_stride_bytes == q_dim * 2,
                q_fp8_stride_bytes == q_dim,
                q_scale_stride_bytes == self.dims.num_heads * 4,
                ops@ =~= start + seq![
                    LayerOp::UploadCounting {
                        dst: cu_seqlens_q,
                        upto: self.dims.num_tokens as i32,
                    },
                ] + Seq::new(qi as nat, |i: int| self.decode_qi_op(cu_seqlens_q, i)),
            decreases self.dims.num_tokens - qi,
        {
            proof {
                let last = self.dims.num_tokens - 1;
                stride_is_monotone(qi as int, last, o_stride_bytes as int);
                stride_is_monotone(qi as int, last, q_fp8_stride_bytes as int);
                stride_is_monotone(qi as int, last, q_scale_stride_bytes as int);
                stride_is_monotone(qi as int, last, 4);
            }
            let q_scale_cache: u64 = if s.q_scale_cache != 0 {
                s.q_scale_cache + (qi as u64) * q_scale_stride_bytes
            } else {
                0
            };
            ops.push(
                LayerOp::PagedDecodeFp8(
                    DecodeFp8 {
                        params,
                        out: s.attn_out + (qi as u64) * o_stride_bytes,
                        q_fp8: s.q_fp8 + (qi as u64) * q_fp8_stride_bytes,
                        k_cache: s.k_cache,
                        v_cache: s.v_cache,
                        k_scale_cache: s.k_scale_cache,
                        v_scale_cache: s.v_scale_cache,
                        q_scale_cache,
                        k_descale_fallback: 0,
                        v_descale_fallback: 0,
                        block_tables: self.meta.block_tables,
                        context_lens: cu_seqlens_q + (qi as u64) * 4,
                        workspace: s.fa3_workspace,
                        q_descale: s.q_scale_ptr,
                    },
                ),
            );
            qi = qi + 1;
        }
    }

    fn rope_and_attention(&self, ops: &mut Vec<LayerOp>) -> (r: Result<(), RvllmError>)
        requires
            self.dims.widths_fit(),
            self.attention_fits(),
        ensures
            self.attention_run().recorded(old(ops)@, final(ops)@, r),
    {
        if let Build::Host = self.build {
            return Ok(());
        }
        match self.phase {
            Gemma4Phase::Decode => {
                self.push_decode(ops);
                Ok(())
            },
            Gemma4Phase::Prefill { cu_seqlens_q, .. } => {
                ops.push(rope_fp8kv(self.dims, self.kernels, self.scratch, self.meta));
                let unified_enabled = !is_set_to(&self.env.unified_prefill, "0");
                let fa2_unified = match self.chosen_attention() {
                    AttentionBackend::Fa2Ptx(fa2) => fa2.has_unified_prefill(),
                    _ => false,
                };
                if unified_enabled && fa2_unified && self.dims.num_tokens > 1 {
                    self.push_unified(cu_seqlens_q, ops)
                } else {
                    self.push_per_qi(cu_seqlens_q, ops);
                    Ok(())
                }
            },
        }
    }
}

proof fn stride_is_monotone(i: int, last: int, stride: int)
    requires
        0 <= i <= last,
        0 <= stride,
    ensures
        0 <= i * stride <= last * stride,
{
    assert(0 <= i * stride <= last * stride) by (nonlinear_arith)
        requires
            0 <= i <= last,
            0 <= stride,
    ;
}

impl<'a> LayerCall<'a> {
    /// Step 6 is skipped where step 7 will read the half-precision attention
    /// output.
    pub open spec fn skips_o_quant(self) -> bool {
        &&& self.build is Cuda
        &&& self.dims.num_tokens <= FAST_PATH_M_MAX
        &&& self.weights.o_f16 == 0
        &&& self.weights.o_chscale != 0
        &&& self.weights.o_blockscale != 0
        &&& self.has_gemv()
    }

    /// Step 6: quantization of the attention output, unless nothing will read
    /// it: half-precision cache and weights, or the row-by-row kernel.
    pub open spec fn o_quant_ops(self) -> Seq<LayerOp> {
        if (!self.dims.f16_kv || self.weights.o_f16 == 0) && !self.skips_o_quant() {
            seq![
                LayerOp::QuantizeFp8PerToken(
                    Quantize {
                        kernel: self.kernels.quantize_fp8_per_token,
                        num_tokens: self.dims.num_tokens,
                        dim: self.dims.q_dim() as u32,
                        out_fp8: self.scratch.attn_out_fp8,
                        out_scale: self.scratch.attn_out_scale,
                        input: self.scratch.attn_out,
                    },
                ),
            ]
        } else {
            Seq::empty()
        }
    }

    fn o_quant(&self, ops: &mut Vec<LayerOp>)
        requires
            self.dims.widths_fit(),
        ensures
            final(ops)@ == old(ops)@ + self.o_quant_ops(),
    {
        let skip = match self.build {
            Build::Cuda => self.dims.num_tokens <= FAST_PATH_M_MAX && self.weights.o_f16 == 0
                && self.weights.o_chscale != 0 && self.weights.o_blockscale != 0
                && self.kernels.fp8_gemv_wpr_native_f16in.is_some(),
            Build::Host => false,
        };
        if (!self.dims.f16_kv || self.weights.o_f16 == 0) && !skip {
            ops.push(
                LayerOp::QuantizeFp8PerToken(
                    Quantize {
                        kernel: self.kernels.quantize_fp8_per_token,
                        num_tokens: self.dims.num_tokens,
                        dim: self.dims.q_width(),
                        out_fp8: self.scratch.attn_out_fp8,
                        out_scale: self.scratch.attn_out_scale,
                        input: self.scratch.attn_out,
                    },
                ),
            );
        }
    }

    /// A norm of a projection's output, added to the residual.
    pub open spec fn norm_add(
        self,
        kernel: KernelFn,
        gamma: u64,
        layer_scalar: u64,
    ) -> NormAdd {
        NormAdd {
            kernel,
            num_tokens: self.dims.num_tokens,
            hidden: self.dims.hidden,
            eps: self.dims.rms_eps,
            input: self.scratch.gemm_f32_tmp,
            gamma,
            residual: self.residual,
            layer_scalar,
        }
    }

    /// The norm-add over a single-precision projection.
    pub open spec fn norm_add_f32(self, gamma: u64, layer_scalar: u64) -> LayerOp {
        LayerOp::NormAddResidual(
            self.norm_add(self.kernels.fused_norm_add_residual, gamma, layer_scalar),
        )
    }

    /// The norm-add over a half-precision projection.
    pub open spec fn norm_add_f16in(self, gamma: u64, layer_scalar: u64) -> LayerOp {
        LayerOp::NormAddResidualF16In(
            self.norm_add(self.kernels.fused_norm_add_residual_f16in, gamma, layer_scalar),
        )
    }

    fn push_norm_add_f32(&self, gamma: u64, layer_scalar: u64, ops: &mut Vec<LayerOp>)
        ensures
            final(ops)@ == old(ops)@.push(self.norm_add_f32(gamma, layer_scalar)),
    {
        ops.push(
            LayerOp::NormAddResidual(
                NormAdd {
                    kernel: self.kernels.fused_norm_add_residual,
                    num_tokens: self.dims.num_tokens,
                    hidden: self.dims.hidden,
                    eps: self.dims.rms_eps,
                    input: self.scratch.gemm_f32_tmp,
                    gamma,
                    residual: self.residual,
                    layer_scalar,
                },
            ),
        );
    }

    fn push_norm_add_f16in(&self, gamma: u64, layer_scalar: u64, ops: &mut Vec<LayerOp>)
        ensures
            final(ops)@ == old(ops)@.push(self.norm_add_f16in(gamma, layer_scalar)),
    {
        ops.push(
            LayerOp::NormAddResidualF16In(
                NormAdd {
                    kernel: self.kernels.fused_norm_add_residual_f16in,
                    num_tokens: self.dims.num_tokens,
                    hidden: self.dims.hidden,
                    eps: self.dims.rms_eps,
                    input: self.scratch.gemm_f32_tmp,
                    gamma,
                    residual: self.residual,
                    layer_scalar,
                },
            ),
        );
    }

    /// The output projection as a multiplication with channel scales. Its
    /// half-precision output lies at the start of the scratch buffer, its own
    /// scratch behind it.
    pub open spec fn o_gemm(self) -> ChannelscaleGemm {
        ChannelscaleGemm {
            output_f16: self.scratch.gemm_f32_tmp,
            a_fp8: self.scratch.attn_out_fp8,
            b_fp8: self.weights.o_fp8,
            a_scale: self.scratch.attn_out_scale,
            b_chscale: self.weights.o_chscale,
            b_blockscale: self.weights.o_blockscale,
            b_scale_scalar: self.weights.o_scale,
            m: self.dims.num_tokens as i32,
            n: self.dims.hidden as i32,
            k: (self.dims.q_dim() as u32) as i32,
            scratch_f32: (self.scratch.gemm_f32_tmp + self.dims.activation_bytes()) as u64,
            cutlass_workspace: self.scratch.cutlass_workspace,
            cutlass_workspace_bytes: self.scratch.cutlass_workspace_bytes,
        }
    }

    /// Whether the output projection reads half-precision activations against
    /// FP8 weights.
    pub open spec fn o_is_fast(self) -> bool {
        self.weights.o_f16 == 0 && self.weights.o_blockscale != 0 && self.dims.num_tokens
            <= FAST_PATH_M_MAX && self.has_gemv()
    }

    /// Steps 7 and 8: the output projection, its norm, added to the residual.
    pub open spec fn o_run(self) -> Run {
        let w = self.weights;
        let s = self.scratch;
        if self.build is Host {
            Run::of(Seq::empty())
        } else if w.o_f16 != 0 {
            Run::of(
                seq![
                    LayerOp::F16GemmF32 {
                        a: s.attn_out,
                        b: w.o_f16,
                        out: s.gemm_f32_tmp,
                        m: self.dims.num_tokens as i32,
                        n: self.dims.hidden as i32,
                        k: (self.dims.q_dim() as u32) as i32,
                    },
                    self.norm_add_f32(w.post_attn_norm_gamma, 0),
                ],
            )
        } else if self.o_is_fast() {
            Run::of(
                seq![
                    LayerOp::Fp8GemvF16In {
                        kernel: self.kernels.fp8_gemv_wpr_native_f16in->0,
                        m: self.dims.num_tokens,
                        n: self.dims.hidden,
                        k: self.dims.q_dim() as u32,
                        out: s.gemm_f32_tmp,
                        weight: w.o_fp8,
                        blockscale: w.o_blockscale,
                        input: s.attn_out,
                    },
                    self.norm_add_f16in(w.post_attn_norm_gamma, 0),
                ],
            )
        } else if w.o_chscale != 0 {
            channelscale_run(
                *self.cutlass,
                *self.kernels,
                self.o_gemm(),
                self.env.blockwise_enabled(),
                self.sf.o,
                self.stream,
            ).before(Run::of(seq![self.norm_add_f16in(w.post_attn_norm_gamma, 0)]))
        } else {
            Run::of(
                seq![
                    LayerOp::Fp8GemmF32(lt_gemm(self.o_gemm(), s.gemm_f32_tmp)),
                    self.norm_add_f32(w.post_attn_norm_gamma, 0),
                ],
            )
        }
    }

    /// Whether the sizes of step 7 can be represented.
    pub open spec fn o_fits(self) -> bool {
        if self.build is Host || self.weights.o_f16 != 0 || self.o_is_fast()
            || self.weights.o_chscale == 0 {
            true
        } else {
            &&& self.dims.activation_bytes() <= u32::MAX
            &&& self.scratch.gemm_f32_tmp + self.dims.activation_bytes() <= u64::MAX
            &&& channelscale_fits(
                *self.cutlass,
                self.o_gemm(),
                self.env.blockwise_enabled(),
                self.sf.o,
            )
        }
    }

    fn staged_scratch(&self) -> (r: u64)
        requires
            self.dims.activation_bytes() <= u32::MAX,
            self.scratch.gemm_f32_tmp + self.dims.activation_bytes() <= u64::MAX,
        ensures
            r == self.scratch.gemm_f32_tmp + self.dims.activation_bytes(),
    {
        proof {
            assert(self.dims.num_tokens * self.dims.hidden >= 0) by (nonlinear_arith)
                requires
                    self.dims.num_tokens >= 0,
                    self.dims.hidden >= 0,
            ;
        }
        self.scratch.gemm_f32_tmp + (self.dims.num_tokens * self.dims.hidden * 2) as u64
    }

    fn o_projection(&self, ops: &mut Vec<LayerOp>) -> (r: Result<(), RvllmError>)
        requires
            self.dims.widths_fit(),
            self.o_fits(),
        ensures
            self.o_run().recorded(old(ops)@, final(ops)@, r),
    {
        if let Build::Host = self.build {
            return Ok(());
        }
        let w = self.weights;
        let s = self.scratch;
        let q_dim: u32 = self.dims.q_width();
        if w.o_f16 != 0 {
            ops.push(
                LayerOp::F16GemmF32 {
                    a: s.attn_out,
                    b: w.o_f16,
                    out: s.gemm_f32_tmp,
                    m: self.dims.num_tokens as i32,
                    n: self.dims.hidden as i32,
                    k: q_dim as i32,
                },
            );
            self.push_norm_add_f32(w.post_attn_norm_gamma, 0, ops);
            return Ok(());
        }
        if w.o_blockscale != 0 && self.dims.num_tokens <= FAST_PATH_M_MAX {
            if let Some(fn_gemv) = self.kernels.fp8_gemv_wpr_native_f16in {
                ops.push(
                    LayerOp::Fp8GemvF16In {
                        kernel: fn_gemv,
                        m: self.dims.num_tokens,
                        n: self.dims.hidden,
                        k: q_dim,
                        out: s.gemm_f32_tmp,
                        weight: w.o_fp8,
                        blockscale: w.o_blockscale,
                        input: s.attn_out,
                    },
                );
                self.push_norm_add_f16in(w.post_attn_norm_gamma, 0, ops);
                return Ok(());
            }
        }
        if w.o_chscale != 0 {
            let g = ChannelscaleGemm {
                output_f16: s.gemm_f32_tmp,
                a_fp8: s.attn_out_fp8,
                b_fp8: w.o_fp8,
                a_scale: s.attn_out_scale,
                b_chscale: w.o_chscale,
                b_blockscale: w.o_blockscale,
                b_scale_scalar: w.o_scale,
                m: self.dims.num_tokens as i32,
                n: self.dims.hidden as i32,
                k: q_dim as i32,
                scratch_f32: self.staged_scratch(),
                cutlass_workspace: s.cutlass_workspace,
                cutlass_workspace_bytes: s.cutlass_workspace_bytes,
            };
            fp8_gemm_channelscale_or_fallback(
                self.cutlass,
                self.kernels,
                g,
                !is_set_to(&self.env.fp8_gemm_cutlass_sm120, "0"),
                self.sf.o,
                self.stream,
                ops,
            )?;
            self.push_norm_add_f16in(w.post_attn_norm_gamma, 0, ops);
            return Ok(());
        }
        ops.push(
            LayerOp::Fp8GemmF32(
                LtGemm {
                    a: s.attn_out_fp8,
                    b: w.o_fp8,
                    out: s.gemm_f32_tmp,
                    m: self.dims.num_tokens as i32,
                    n: self.dims.hidden as i32,
                    k: q_dim as i32,
                    a_scale: s.attn_out_scale,
                    b_scale: w.o_scale,
                },
            ),
        );
        self.push_norm_add_f32(w.post_attn_norm_gamma, 0, ops);
        Ok(())
    }

    /// Step 9 is skipped where step 10 will read half-precision activations.
    pub open spec fn skips_ff_quant(self) -> bool {
        &&& self.build is Cuda
        &&& self.dims.num_tokens <= FAST_PATH_M_MAX
        &&& self.weights.gate_up_chscale != 0
        &&& self.weights.gate_up_blockscale != 0
        &&& self.weights.gate_up_f16 == 0
        &&& self.has_gemv()
    }

    /// Step 9: the pre-feedforward norm.
    pub open spec fn ff_input_ops(self) -> Seq<LayerOp> {
        if self.skips_ff_quant() {
            Seq::empty()
        } else {
            seq![self.norm_quant(self.weights.pre_ff_norm_gamma)]
        }
    }

    fn ff_input(&self, ops: &mut Vec<LayerOp>)
        ensures
            final(ops)@ == old(ops)@ + self.ff_input_ops(),
    {
        let skip = match self.build {
            Build::Cuda => self.dims.num_tokens <= FAST_PATH_M_MAX && self.weights.gate_up_chscale
                != 0 && self.weights.gate_up_blockscale != 0 && self.weights.gate_up_f16 == 0
                && self.kernels.fp8_gemv_wpr_native_f16in.is_some(),
            Build::Host => false,
        };
        if !skip {
            self.push_norm_quant(self.weights.pre_ff_norm_gamma, ops);
        }
    }

    /// The projection to gate and up as a multiplication with channel scales.
    pub open spec fn gate_up_gemm(self) -> ChannelscaleGemm {
        ChannelscaleGemm {
            output_f16: self.scratch.gate_up_out,
            a_fp8: self.scratch.hidden_fp8,
            b_fp8: self.weights.gate_up_fp8,
            a_scale: self.scratch.hidden_scale,
            b_chscale: self.weights.gate_up_chscale,
            b_blockscale: self.weights.gate_up_blockscale,
            b_scale_scalar: self.weights.gate_up_scale,
            m: self.dims.num_tokens as i32,
            n: ((2 * self.dims.intermediate) as u32) as i32,
            k: self.dims.hidden as i32,
            scratch_f32: self.scratch.gemm_f32_tmp,
            cutlass_workspace: self.scratch.cutlass_workspace,
            cutlass_workspace_bytes: self.scratch.cutlass_workspace_bytes,
        }
    }

    /// Whether the projection to gate and up reads half-precision activations
    /// against FP8 weights.
    pub open spec fn gate_up_is_fast(self) -> bool {
        self.weights.gate_up_f16 == 0 && self.weights.gate_up_blockscale != 0
            && self.dims.num_tokens <= FAST_PATH_M_MAX && self.has_gemv()
    }

    /// Step 10: the projection to gate and up.
    pub open spec fn gate_up_run(self) -> Run {
        let w = self.weights;
        let s = self.scratch;
        if self.build is Host {
            Run::of(Seq::empty())
        } else if w.gate_up_f16 != 0 {
            Run::of(
                self.norm_f16(s.gate_up_out, w.pre_ff_norm_gamma) + seq![
                    LayerOp::F16GemmF32 {
                        a: s.gate_up_out,
                        b: w.gate_up_f16,
                        out: s.gemm_f32_tmp,
                        m: self.dims.num_tokens as i32,
                        n: ((2 * self.dims.intermediate) as u32) as i32,
                        k: self.dims.hidden as i32,
                    },
                    LayerOp::CastToF16 {
                        kernel: self.kernels.f32_to_f16_sat,
                        n: (self.dims.num_tokens * 2 * self.dims.intermediate) as u32,
                        dst: s.gate_up_out,
                        src: s.gemm_f32_tmp,
                    },
                ],
            )
        } else if self.gate_up_is_fast() {
            Run::of(
                self.norm_f16(s.delta_f16, w.pre_ff_norm_gamma) + seq![
                    LayerOp::Fp8GemvF16In {
                        kernel: self.kernels.fp8_gemv_wpr_native_f16in->0,
                        m: self.dims.num_tokens,
                        n: (2 * self.dims.intermediate) as u32,
                        k: self.dims.hidden,
                        out: s.gate_up_out,
                        weight: w.gate_up_fp8,
                        blockscale: w.gate_up_blockscale,
                        input: s.delta_f16,
                    },
                ],
            )
        } else if w.gate_up_chscale != 0 {
            channelscale_run(
                *self.cutlass,
                *self.kernels,
                self.gate_up_gemm(),
                self.env.blockwise_enabled(),
                self.sf.gate_up,
                self.stream,
            )
        } else {
            Run::of(seq![LayerOp::Fp8Gemm(lt_gemm(self.gate_up_gemm(), s.gate_up_out))])
        }
    }

    /// Whether the sizes of step 10 can be represented.
    pub open spec fn gate_up_fits(self) -> bool {
        let w = self.weights;
        if self.build is Host {
            true
        } else {
            &&& 2 * self.dims.intermediate <= u32::MAX
            &&& if w.gate_up_f16 != 0 {
                &&& self.dims.activation_bytes() <= u32::MAX
                &&& self.dims.num_tokens * 2 <= u32::MAX
                &&& self.dims.num_tokens * 2 * self.dims.intermediate <= u32::MAX
            } else if self.gate_up_is_fast() {
                self.dims.activation_bytes() <= u32::MAX
            } else if w.gate_up_chscale != 0 {
                channelscale_fits(
                    *self.cutlass,
                    self.gate_up_gemm(),
                    self.env.blockwise_enabled(),
                    self.sf.gate_up,
                )
            } else {
                true
            }
        }
    }

    fn gate_up_projection(&self, ops: &mut Vec<LayerOp>) -> (r: Result<(), RvllmError>)
        requires
            self.gate_up_fits(),
        ensures
            self.gate_up_run().recorded(old(ops)@, final(ops)@, r),
    {
        if let Build::Host = self.build {
            return Ok(());
        }
        let w = self.weights;
        let s = self.scratch;
        let rows: u32 = 2 * self.dims.intermediate;
        if w.gate_up_f16 != 0 {
            self.push_norm_f16(s.gate_up_out, w.pre_ff_norm_gamma, ops);
            ops.push(
                LayerOp::F16GemmF32 {
                    a: s.gate_up_out,
                    b: w.gate_up_f16,
                    out: s.gemm_f32_tmp,
                    m: self.dims.num_tokens as i32,
                    n: rows as i32,
                    k: self.dims.hidden as i32,
                },
            );
            proof {
                assert(self.dims.num_tokens * 2 * self.dims.intermediate >= 0) by (nonlinear_arith)
                    requires
                        self.dims.num_tokens >= 0,
                        self.dims.intermediate >= 0,
                ;
            }
            ops.push(
                LayerOp::CastToF16 {
                    kernel: self.kernels.f32_to_f16_sat,
                    n: self.dims.num_tokens * 2 * self.dims.intermediate,
                    dst: s.gate_up_out,
                    src: s.gemm_f32_tmp,
                },
            );
            return Ok(());
        }
        if w.gate_up_blockscale != 0 && self.dims.num_tokens <= FAST_PATH_M_MAX {
            if let Some(fn_gemv) = self.kernels.fp8_gemv_wpr_native_f16in {
                self.push_norm_f16(s.delta_f16, w.pre_ff_norm_gamma, ops);
                ops.push(
                    LayerOp::Fp8GemvF16In {
                        kernel: fn_gemv,
                        m: self.dims.num_tokens,
                        n: rows,
                        k: self.dims.hidden,
                        out: s.gate_up_out,
                        weight: w.gate_up_fp8,
                        blockscale: w.gate_up_blockscale,
                        input: s.delta_f16,
                    },
                );
                return Ok(());
            }
        }
        let g = ChannelscaleGemm {
            output_f16: s.gate_up_out,
            a_fp8: s.hidden_fp8,
            b_fp8: w.gate_up_fp8,
            a_scale: s.hidden_scale,
            b_chscale: w.gate_up_chscale,
            b_blockscale: w.gate_up_blockscale,
            b_scale_scalar: w.gate_up_scale,
            m: self.dims.num_tokens as i32,
            n: rows as i32,
            k: self.dims.hidden as i32,
            scratch_f32: s.gemm_f32_tmp,
            cutlass_workspace: s.cutlass_workspace,
            cutlass_workspace_bytes: s.cutlass_workspace_bytes,
        };
        if w.gate_up_chscale != 0 {
            return fp8_gemm_channelscale_or_fallback(
                self.cutlass,
                self.kernels,
                g,
                !is_set_to(&self.env.fp8_gemm_cutlass_sm120, "0"),
                self.sf.gate_up,
                self.stream,
                ops,
            );
        }
        push_fp8_gemm(g, s.gate_up_out, ops);
        Ok(())
    }

    /// Half-precision GELU of the gating half times the up half: one block per token.
    /// The result goes to a buffer of its own, since it may not overwrite its
    /// input.
    pub open spec fn gelu_f16_op(self) -> LayerOp {
        LayerOp::Raw(
            RawLaunch {
                kernel: self.kernels.fused_gelu_mul_f16,
                grid: (self.dims.num_tokens, 1, 1),
                block: (
                    if self.dims.intermediate <= 1024 {
                        self.dims.intermediate
                    } else {
                        1024
                    },
                    1,
                    1,
                ),
                shared_mem_bytes: 0,
                stream: self.stream,
                args: KernelArgs::GeluMul(
                    GeluMulArgs {
                        out: self.scratch.gate_up_fp8,
                        inp: self.scratch.gate_up_out,
                        intermediate: self.dims.intermediate as i32,
                    },
                ),
            },
        )
    }

    /// GELU of the gating half times the up half, quantized to FP8.
    pub open spec fn gelu_fp8_op(self) -> LayerOp {
        LayerOp::GeluMulFp8Quant(
            Quantize {
                kernel: self.kernels.fused_gelu_mul,
                num_tokens: self.dims.num_tokens,
                dim: self.dims.intermediate,
                out_fp8: self.scratch.mlp_out_fp8,
                out_scale: self.scratch.mlp_out_scale,
                input: self.scratch.gate_up_out,
            },
        )
    }

    fn push_gelu_f16(&self, ops: &mut Vec<LayerOp>)
        ensures
            final(ops)@ == old(ops)@.push(self.gelu_f16_op()),
    {
        let threads: u32 = if self.dims.intermediate <= 1024 {
            self.dims.intermediate
        } else {
            1024
        };
        let launch = launch_raw(
            self.kernels.fused_gelu_mul_f16,
            (self.dims.num_tokens, 1, 1),
            (threads, 1, 1),
            0,
            self.stream,
            KernelArgs::GeluMul(
                GeluMulArgs {
                    out: self.scratch.gate_up_fp8,
                    inp: self.scratch.gate_up_out,
                    intermediate: self.dims.intermediate as i32,
                },
            ),
        );
        ops.push(LayerOp::Raw(launch));
    }

    /// The down projection as a multiplication with channel scales, staged as
    /// the output projection is.
    pub open spec fn down_gemm(self) -> ChannelscaleGemm {
        ChannelscaleGemm {
            output_f16: self.scratch.gemm_f32_tmp,
            a_fp8: self.scratch.mlp_out_fp8,
            b_fp8: self.weights.down_fp8,
            a_scale: self.scratch.mlp_out_scale,
            b_chscale: self.weights.down_chscale,
            b_blockscale: self.weights.down_blockscale,
            b_scale_scalar: self.weights.down_scale,
            m: self.dims.num_tokens as i32,
            n: self.dims.hidden as i32,
            k: self.dims.intermediate as i32,
            scratch_f32: (self.scratch.gemm_f32_tmp + self.dims.activation_bytes()) as u64,
            cutlass_workspace: self.scratch.cutlass_workspace,
            cutlass_workspace_bytes: self.scratch.cutlass_workspace_bytes,
        }
    }

    /// Whether the down projection reads half-precision activations against FP8
    /// weights.
    pub open spec fn down_is_fast(self) -> bool {
        self.weights.down_f16 == 0 && self.weights.down_blockscale != 0 && self.dims.num_tokens
            <= FAST_PATH_M_MAX && self.has_gemv()
    }

    /// Steps 11 to 14: GELU, the down projection, its norm, added to the
    /// residual, times the layer scalar.
    pub open spec fn down_run(self) -> Run {
        let w = self.weights;
        let s = self.scratch;
        if self.build is Host {
            Run::of(Seq::empty())
        } else if w.down_f16 != 0 {
            Run::of(
                seq![
                    self.gelu_f16_op(),
                    LayerOp::F16GemmF32 {
                        a: s.gate_up_fp8,
                        b: w.down_f16,
                        out: s.gemm_f32_tmp,
                        m: self.dims.num_tokens as i32,
                        n: self.dims.hidden as i32,
                        k: self.dims.intermediate as i32,
                    },
                    self.norm_add_f32(w.post_ff_norm_gamma, w.layer_scalar_ptr),
                ],
            )
        } else if self.down_is_fast() {
            Run::of(
                seq![
                    self.gelu_f16_op(),
                    LayerOp::Fp8GemvF16In {
                        kernel: self.kernels.fp8_gemv_wpr_native_f16in->0,
                        m: self.dims.num_tokens,
                        n: self.dims.hidden,
                        k: self.dims.intermediate,
                        out: s.gemm_f32_tmp,
                        weight: w.down_fp8,
                        blockscale: w.down_blockscale,
                        input: s.gate_up_fp8,
                    },
                    self.norm_add_f16in(w.post_ff_norm_gamma, w.layer_scalar_ptr),
                ],
            )
        } else if w.down_chscale != 0 {
            Run::of(seq![self.gelu_fp8_op()]).before(
                channelscale_run(
                    *self.cutlass,
                    *self.kernels,
                    self.down_gemm(),
                    self.env.blockwise_enabled(),
                    self.sf.down,
                    self.stream,
                ),
            ).before(Run::of(seq![self.norm_add_f16in(w.post_ff_norm_gamma, w.layer_scalar_ptr)]))
        } else {
            Run::of(
                seq![
                    self.gelu_fp8_op(),
                    LayerOp::Fp8GemmF32(lt_gemm(self.down_gemm(), s.gemm_f32_tmp)),
                    self.norm_add_f32(w.post_ff_norm_gamma, w.layer_scalar_ptr),
                ],
            )
        }
    }

    /// Whether the sizes of step 12 can be represented.
    pub open spec fn down_fits(self) -> bool {
        if self.build is Host || self.weights.down_f16 != 0 || self.down_is_fast()
            || self.weights.down_chscale == 0 {
            true
        } else {
            &&& self.dims.activation_bytes() <= u32::MAX
            &&& self.scratch.gemm_f32_tmp + self.dims.activation_bytes() <= u64::MAX
            &&& channelscale_fits(
                *self.cutlass,
                self.down_gemm(),
                self.env.blockwise_enabled(),
                self.sf.down,
            )
        }
    }

    fn gelu_and_down(&self, ops: &mut Vec<LayerOp>) -> (r: Result<(), RvllmError>)
        requires
            self.down_fits(),
        ensures
            self.down_run().recorded(old(ops)@, final(ops)@, r),
    {
        if let Build::Host = self.build {
            return Ok(());
        }
        let w = self.weights;
        let s = self.scratch;
        if w.down_f16 != 0 {
            self.push_gelu_f16(ops);
            ops.push(
                LayerOp::F16GemmF32 {
                    a: s.gate_up_fp8,
                    b: w.down_f16,
                    out: s.gemm_f32_tmp,
                    m: self.dims.num_tokens as i32,
                    n: self.dims.hidden as i32,
                    k: self.dims.intermediate as i32,
                },
            );
            self.push_norm_add_f32(w.post_ff_norm_gamma, w.layer_scalar_ptr, ops);
            return Ok(());
        }
        if w.down_blockscale != 0 && self.dims.num_tokens <= FAST_PATH_M_MAX {
            if let Some(fn_gemv) = self.kernels.fp8_gemv_wpr_native_f16in {
                self.push_gelu_f16(ops);
                ops.push(
                    LayerOp::Fp8GemvF16In {
                        kernel: fn_gemv,
                        m: self.dims.num_tokens,
                        n: self.dims.hidden,
                        k: self.dims.intermediate,
                        out: s.gemm_f32_tmp,
                        weight: w.down_fp8,
                        blockscale: w.down_blockscale,
                        input: s.gate_up_fp8,
                    },
                );
                self.push_norm_add_f16in(w.post_ff_norm_gamma, w.layer_scalar_ptr, ops);
                return Ok(());
            }
        }
        ops.push(
            LayerOp::GeluMulFp8Quant(
                Quantize {
                    kernel: self.kernels.fused_gelu_mul,
                    num_tokens: self.dims.num_tokens,
                    dim: self.dims.intermediate,
                    out_fp8: s.mlp_out_fp8,
                    out_scale: s.mlp_out_scale,
                    input: s.gate_up_out,
                },
            ),
        );
        if w.down_chscale != 0 {
            let g = ChannelscaleGemm {
                output_f16: s.gemm_f32_tmp,
                a_fp8: s.mlp_out_fp8,
                b_fp8: w.down_fp8,
                a_scale: s.mlp_out_scale,
                b_chscale: w.down_chscale,
                b_blockscale: w.down_blockscale,
                b_scale_scalar: w.down_scale,
                m: self.dims.num_tokens as i32,
                n: self.dims.hidden as i32,
                k: self.dims.intermediate as i32,
                scratch_f32: self.staged_scratch(),
                cutlass_workspace: s.cutlass_workspace,
                cutlass_workspace_bytes: s.cutlass_workspace_bytes,
            };
            fp8_gemm_channelscale_or_fallback(
                self.cutlass,
                self.kernels,
                g,
                !is_set_to(&self.env.fp8_gemm_cutlass_sm120, "0"),
                self.sf.down,
                self.stream,
                ops,
            )?;
            self.push_norm_add_f16in(w.post_ff_norm_gamma, w.layer_scalar_ptr, ops);
            return Ok(());
        }
        ops.push(
            LayerOp::Fp8GemmF32(
                LtGemm {
                    a: s.mlp_out_fp8,
                    b: w.down_fp8,
                    out: s.gemm_f32_tmp,
                    m: self.dims.num_tokens as i32,
                    n: self.dims.hidden as i32,
                    k: self.dims.intermediate as i32,
                    a_scale: s.mlp_out_scale,
                    b_scale: w.down_scale,
                },
            ),
        );
        self.push_norm_add_f32(w.post_ff_norm_gamma, w.layer_scalar_ptr, ops);
        Ok(())
    }

    /// Steps 1 to 8.
    pub open spec fn attention_half(self) -> Run {
        Run::of(self.attn_input_ops()).before(self.qkv_run()).before(
            Run::of(seq![self.qkv_norm_op()]),
        ).before(self.attention_run()).before(Run::of(self.o_quant_ops())).before(self.o_run())
    }

    /// Steps 9 to 14.
    pub open spec fn feedforward_half(self) -> Run {
        Run::of(self.ff_input_ops()).before(self.gate_up_run()).before(self.down_run())
    }

    /// The operations of the layer.
    pub open spec fn forward_run(self) -> Run {
        self.attention_half().before(self.feedforward_half())
    }

    /// Whether every size that the pass computes before it ends can be
    /// represented.
    pub open spec fn sizes_fit(self) -> bool {
        &&& self.dims.widths_fit()
        &&& self.qkv_fits()
        &&& self.qkv_run().end is Ok ==> self.attention_fits() && (self.attention_run().end is Ok
            ==> self.o_fits())
        &&& self.attention_half().end is Ok ==> self.gate_up_fits() && (self.gate_up_run().end is Ok
            ==> self.down_fits())
    }

    fn plan_attention_half(&self, ops: &mut Vec<LayerOp>) -> (r: Result<(), RvllmError>)
        requires
            self.sizes_fit(),
        ensures
            self.attention_half().recorded(old(ops)@, final(ops)@, r),
    {
        let ghost start = ops@;
        let ghost input = Run::of(self.attn_input_ops());
        self.attn_input(ops);
        let ghost before_qkv = ops@;
        let qkv = self.qkv_projection(ops);
        let ghost after_qkv = ops@;
        proof {
            runs_are_recorded_in_turn(input, self.qkv_run(), start, before_qkv, after_qkv, qkv);
        }
        if qkv.is_err() {
            return qkv;
        }
        let ghost projected = input.before(self.qkv_run());
        let ghost norm = Run::of(seq![self.qkv_norm_op()]);
        self.qkv_norm(ops);
        let ghost before_attention = ops@;
        proof {
            runs_are_recorded_in_turn(projected, norm, start, after_qkv, before_attention, Ok(()));
        }
        let attention = self.rope_and_attention(ops);
        let ghost after_attention = ops@;
        proof {
            runs_are_recorded_in_turn(
                projected.before(norm),
                self.attention_run(),
                start,
                before_attention,
                after_attention,
                attention,
            );
        }
        if attention.is_err() {
            return attention;
        }
        let ghost attended = projected.before(norm).before(self.attention_run());
        let ghost quant = Run::of(self.o_quant_ops());
        self.o_quant(ops);
        let ghost before_o = ops@;
        proof {
            runs_are_recorded_in_turn(attended, quant, start, after_attention, before_o, Ok(()));
        }
        let o = self.o_projection(ops);
        proof {
            runs_are_recorded_in_turn(attended.before(quant), self.o_run(), start, before_o, ops@, o);
        }
        o
    }

    fn plan_feedforward_half(&self, ops: &mut Vec<LayerOp>) -> (r: Result<(), RvllmError>)
        requires
            self.gate_up_fits(),
            self.gate_up_run().end is Ok ==> self.down_fits(),
        ensures
            self.feedforward_half().recorded(old(ops)@, final(ops)@, r),
    {
        self.ff_input(ops);
        self.gate_up_projection(ops)?;
        self.gelu_and_down(ops)?;
        Ok(())
    }

    /// Plans the layer, appending its operations to `ops`. With an error, what
    /// was appended is what had been issued before it.
    pub fn plan(&self, ops: &mut Vec<LayerOp>) -> (r: Result<(), RvllmError>)
        requires
            self.sizes_fit(),
        ensures
            self.forward_run().recorded(old(ops)@, final(ops)@, r),
    {
        self.plan_attention_half(ops)?;
        self.plan_feedforward_half(ops)?;
        Ok(())
    }
}

/// The operations of a Gemma 4 layer in a phase, appended to `ops`.
#[allow(clippy::too_many_arguments)]
pub fn gemma4_forward_phase(
    build: Build,
    dims: Gemma4LayerDims,
    kernels: &Gemma4LayerKernels,
    weights: &Gemma4LayerWeightPtrs,
    scratch: &Gemma4LayerScratch,
    meta: &Gemma4MetadataPtrs,
    cutlass: &CutlassBackend,
    sliding_attention: &AttentionBackend,
    global_attention: &AttentionBackend,
    env: &LayerEnv,
    sf: LayerSfBytes,
    residual: u64,
    stream: u64,
    phase: Gemma4Phase,
    ops: &mut Vec<LayerOp>,
) -> (r: Result<(), RvllmError>)
    requires
        (LayerCall {
            build,
            dims,
            kernels,
            weights,
            scratch,
            meta,
            cutlass,
            sliding_attention,
            global_attention,
            env,
            sf,
            residual,
            stream,
            phase,
        }).sizes_fit(),
    ensures
        (LayerCall {
            build,
            dims,
            kernels,
            weights,
            scratch,
            meta,
            cutlass,
            sliding_attention,
            global_attention,
            env,
            sf,
            residual,
            stream,
            phase,
        }).forward_run().recorded(old(ops)@, final(ops)@, r),
{
    let call = LayerCall {
        build,
        dims,
        kernels,
        weights,
        scratch,
        meta,
        cutlass,
        sliding_attention,
        global_attention,
        env,
        sf,
        residual,
        stream,
        phase,
    };
    call.plan(ops)
}

/// The operations of a Gemma 4 layer in a decode step, appended to `ops`.
#[allow(clippy::too_many_arguments)]
pub fn gemma4_forward(
    build: Build,
    dims: Gemma4LayerDims,
    kernels: &Gemma4LayerKernels,
    weights: &Gemma4LayerWeightPtrs,
    scratch: &Gemma4LayerScratch,
    meta: &Gemma4MetadataPtrs,
    cutlass: &CutlassBackend,
    sliding_attention: &AttentionBackend,
    global_attention: &AttentionBackend,
    env: &LayerEnv,
    sf: LayerSfBytes,
    residual: u64,
    stream: u64,
    ops: &mut Vec<LayerOp>,
) -> (r: Result<(), RvllmError>)
    requires
        (LayerCall {
            build,
            dims,
            kernels,
            weights,
            scratch,
            meta,
            cutlass,
            sliding_attention,
            global_attention,
            env,
            sf,
            residual,
            stream,
            phase: Gemma4Phase::Decode,
        }).sizes_fit(),
    ensures
        (LayerCall {
            build,
            dims,
            kernels,
            weights,
            scratch,
            meta,
            cutlass,
            sliding_attention,
            global_attention,
            env,
            sf,
            residual,
            stream,
            phase: Gemma4Phase::Decode,
        }).forward_run().recorded(old(ops)@, final(ops)@, r),
{
    gemma4_forward_phase(
        build,
        dims,
        kernels,
        weights,
        scratch,
        meta,
        cutlass,
        sliding_attention,
        global_attention,
        env,
        sf,
        residual,
        stream,
        Gemma4Phase::Decode,
        ops,
    )
}

/// The soft cap on the logits, as an operation.
pub fn logit_softcap(
    kernel: KernelFn,
    logits_ptr: u64,
    num_tokens: u32,
    vocab: u32,
    cap: F32Bits,
) -> (r: LayerOp)
    ensures
        r == (LayerOp::LogitSoftcap { kernel, num_tokens, vocab, cap, logits: logits_ptr }),
{
    LayerOp::LogitSoftcap { kernel, num_tokens, vocab, cap, logits: logits_ptr }
}

} // verus!
