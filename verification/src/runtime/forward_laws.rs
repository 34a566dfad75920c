//! What the forward pass of a layer issues, said of its arguments and of the
//! list that it appends to.

use crate::attention::prefill_laws::valid_parameters_divide_evenly;
use crate::attention::AttentionBackend;
use crate::cutlass::lib_so::{CutlassBackend, SizeOf};
use crate::error::RvllmError;
use crate::fused::launch_raw::{KernelArgs, RawLaunch};
use crate::ids::F32Bits;
use crate::kernels::module::KernelFn;
use crate::runtime::device_laws::{apart, every_plan_computes_the_layer, representable};
use crate::runtime::device_model::{before_layer, perform_all, Content};
use crate::runtime::gemma4_layer_exec::{
    channelscale_fits, channelscale_run, gemma4_forward, gemma4_forward_phase,
    launch_scale_cols_f32, launch_scale_rows_f32_ratio, layer_sf_queries, logit_softcap,
    widths_are_ordered, ChannelscaleGemm, Gemma4LayerKernels, LayerCall, LayerSfQueries, SfBytes,
    SfQuery,
};
use crate::runtime::layer_ops::{counting, LayerOp, QkvNorm};
use vstd::prelude::*;

verus! {

/// What a forward pass in a phase appends, where it succeeds, computes the layer:
/// a device that starts from the residual of the layer's input performs it, and
/// ends with the residual of the whole layer. What was listed before stays.
pub proof fn forward_phases_compute_the_layer(call: LayerCall<'_>, ops: &mut Vec<LayerOp>)
    requires
        call.build is Cuda,
        apart(call),
        representable(call.dims),
        call.sizes_fit(),
        call_ensures(
            gemma4_forward_phase,
            (
                call.build,
                call.dims,
                call.kernels,
                call.weights,
                call.scratch,
                call.meta,
                call.cutlass,
                call.sliding_attention,
                call.global_attention,
                call.env,
                call.sf,
                call.residual,
                call.stream,
                call.phase,
                ops,
            ),
            Ok::<(), RvllmError>(()),
        ),
    ensures
        final(ops)@.len() >= old(ops)@.len(),
        final(ops)@.take(old(ops)@.len() as int) == old(ops)@,
        perform_all(
            call,
            before_layer(call),
            final(ops)@.skip(old(ops)@.len() as int),
        ) matches Some(d) && d.holds(call.residual, Content::Residual(2)),
{
    every_plan_computes_the_layer(call);
    let n = old(ops)@.len() as int;
    assert(final(ops)@ =~= old(ops)@ + call.forward_run().ops);
    assert(final(ops)@.take(n) =~= old(ops)@);
    assert(final(ops)@.skip(n) =~= call.forward_run().ops);
}

/// A forward pass without a phase is one of a decode step.
pub proof fn forward_steps_compute_the_layer(call: LayerCall<'_>, ops: &mut Vec<LayerOp>)
    requires
        call.build is Cuda,
        call.phase is Decode,
        apart(call),
        representable(call.dims),
        call.sizes_fit(),
        call_ensures(
            gemma4_forward,
            (
                call.build,
                call.dims,
                call.kernels,
                call.weights,
                call.scratch,
                call.meta,
                call.cutlass,
                call.sliding_attention,
                call.global_attention,
                call.env,
                call.sf,
                call.residual,
                call.stream,
                ops,
            ),
            Ok::<(), RvllmError>(()),
        ),
    ensures
        final(ops)@.len() >= old(ops)@.len(),
        final(ops)@.take(old(ops)@.len() as int) == old(ops)@,
        perform_all(
            call,
            before_layer(call),
            final(ops)@.skip(old(ops)@.len() as int),
        ) matches Some(d) && d.holds(call.residual, Content::Residual(2)),
{
    every_plan_computes_the_layer(call);
    let n = old(ops)@.len() as int;
    assert(final(ops)@ =~= old(ops)@ + call.forward_run().ops);
    assert(final(ops)@.take(n) =~= old(ops)@);
    assert(final(ops)@.skip(n) =~= call.forward_run().ops);
}

/// Some operation multiplies with half-precision weights.
pub open spec fn with_half_weights(ops: Seq<LayerOp>) -> bool {
    exists|i: int| 0 <= i < ops.len() && (#[trigger] ops[i]) is F16GemmF32
}

/// Some operation multiplies FP8 weights row by row.
pub open spec fn row_by_row(ops: Seq<LayerOp>) -> bool {
    exists|i: int| 0 <= i < ops.len() && (#[trigger] ops[i]) is Fp8GemvF16In
}

/// Some operation multiplies through cuBLASLt.
pub open spec fn through_lt(ops: Seq<LayerOp>) -> bool {
    exists|i: int| 0 <= i < ops.len() && ((#[trigger] ops[i]) is Fp8Gemm || ops[i] is Fp8GemmF32)
}

proof fn channelscale_is_neither(
    cutlass: CutlassBackend,
    kernels: Gemma4LayerKernels,
    g: ChannelscaleGemm,
    enabled: bool,
    sf: SfBytes,
    stream: u64,
)
    ensures
        ({
            let ops = channelscale_run(cutlass, kernels, g, enabled, sf, stream).ops;
            !with_half_weights(ops) && !row_by_row(ops)
        }),
{
}

/// The format of its weights and the number of tokens decide how a projection is
/// multiplied. Half-precision weights are multiplied as such. FP8 weights with
/// block scales are multiplied row by row where the device can: the projection to
/// queries, keys and values for one token, the others for up to sixteen.
pub proof fn formats_decide_the_kernels(call: LayerCall<'_>)
    requires
        call.build is Cuda,
    ensures
        ({
            let w = call.weights;
            let tokens = call.dims.num_tokens;
            let native = call.kernels.fp8_gemv_wpr_native_f16in is Some;
            &&& with_half_weights(call.qkv_run().ops) <==> w.qkv_f16 != 0
            &&& row_by_row(call.qkv_run().ops) <==> w.qkv_f16 == 0 && w.qkv_blockscale != 0
                && tokens == 1 && native
            &&& with_half_weights(call.o_run().ops) <==> w.o_f16 != 0
            &&& row_by_row(call.o_run().ops) <==> w.o_f16 == 0 && w.o_blockscale != 0 && tokens
                <= 16 && native
            &&& with_half_weights(call.gate_up_run().ops) <==> w.gate_up_f16 != 0
            &&& row_by_row(call.gate_up_run().ops) <==> w.gate_up_f16 == 0 && w.gate_up_blockscale
                != 0 && tokens <= 16 && native
            &&& with_half_weights(call.down_run().ops) <==> w.down_f16 != 0
            &&& row_by_row(call.down_run().ops) <==> w.down_f16 == 0 && w.down_blockscale != 0
                && tokens <= 16 && native
        }),
{
    qkv_format(call);
    o_format(call);
    gate_up_format(call);
    down_format(call);
}

proof fn qkv_format(call: LayerCall<'_>)
    requires
        call.build is Cuda,
    ensures
        with_half_weights(call.qkv_run().ops) <==> call.weights.qkv_f16 != 0,
        row_by_row(call.qkv_run().ops) <==> call.weights.qkv_f16 == 0
            && call.weights.qkv_blockscale != 0 && call.dims.num_tokens == 1
            && call.kernels.fp8_gemv_wpr_native_f16in is Some,
{
    channelscale_is_neither(
        *call.cutlass,
        *call.kernels,
        call.qkv_gemm(),
        call.env.blockwise_enabled(),
        call.sf.qkv,
        call.stream,
    );
    let ops = call.qkv_run().ops;
    let n = call.norm_f16(call.scratch.delta_f16, call.weights.attn_norm_gamma).len() as int;
    if call.weights.qkv_f16 != 0 {
        assert(ops[n] is F16GemmF32);
    } else if call.qkv_is_fast() {
        assert(ops[n] is Fp8GemvF16In);
    }
}

proof fn o_format(call: LayerCall<'_>)
    requires
        call.build is Cuda,
    ensures
        with_half_weights(call.o_run().ops) <==> call.weights.o_f16 != 0,
        row_by_row(call.o_run().ops) <==> call.weights.o_f16 == 0 && call.weights.o_blockscale
            != 0 && call.dims.num_tokens <= 16 && call.kernels.fp8_gemv_wpr_native_f16in is Some,
{
    let mid = channelscale_run(
        *call.cutlass,
        *call.kernels,
        call.o_gemm(),
        call.env.blockwise_enabled(),
        call.sf.o,
        call.stream,
    );
    channelscale_is_neither(
        *call.cutlass,
        *call.kernels,
        call.o_gemm(),
        call.env.blockwise_enabled(),
        call.sf.o,
        call.stream,
    );
    let ops = call.o_run().ops;
    if call.weights.o_f16 != 0 {
        assert(ops[0] is F16GemmF32);
    } else if call.o_is_fast() {
        assert(ops[0] is Fp8GemvF16In);
    } else if call.weights.o_chscale != 0 {
        assert forall|i: int| 0 <= i < ops.len() implies !((#[trigger] ops[i]) is F16GemmF32) && !(
        ops[i] is Fp8GemvF16In) by {
            if i < mid.ops.len() {
                assert(ops[i] == mid.ops[i]);
            }
        }
    }
}

proof fn gate_up_format(call: LayerCall<'_>)
    requires
        call.build is Cuda,
    ensures
        with_half_weights(call.gate_up_run().ops) <==> call.weights.gate_up_f16 != 0,
        row_by_row(call.gate_up_run().ops) <==> call.weights.gate_up_f16 == 0
            && call.weights.gate_up_blockscale != 0 && call.dims.num_tokens <= 16
            && call.kernels.fp8_gemv_wpr_native_f16in is Some,
{
    channelscale_is_neither(
        *call.cutlass,
        *call.kernels,
        call.gate_up_gemm(),
        call.env.blockwise_enabled(),
        call.sf.gate_up,
        call.stream,
    );
    let ops = call.gate_up_run().ops;
    let half = call.norm_f16(call.scratch.gate_up_out, call.weights.pre_ff_norm_gamma).len() as int;
    let fast = call.norm_f16(call.scratch.delta_f16, call.weights.pre_ff_norm_gamma).len() as int;
    if call.weights.gate_up_f16 != 0 {
        assert(ops[half] is F16GemmF32);
    } else if call.gate_up_is_fast() {
        assert(ops[fast] is Fp8GemvF16In);
    }
}

proof fn down_format(call: LayerCall<'_>)
    requires
        call.build is Cuda,
    ensures
        with_half_weights(call.down_run().ops) <==> call.weights.down_f16 != 0,
        row_by_row(call.down_run().ops) <==> call.weights.down_f16 == 0
            && call.weights.down_blockscale != 0 && call.dims.num_tokens <= 16
            && call.kernels.fp8_gemv_wpr_native_f16in is Some,
{
    let mid = channelscale_run(
        *call.cutlass,
        *call.kernels,
        call.down_gemm(),
        call.env.blockwise_enabled(),
        call.sf.down,
        call.stream,
    );
    channelscale_is_neither(
        *call.cutlass,
        *call.kernels,
        call.down_gemm(),
        call.env.blockwise_enabled(),
        call.sf.down,
        call.stream,
    );
    let ops = call.down_run().ops;
    if call.weights.down_f16 != 0 {
        assert(ops[1] is F16GemmF32);
    } else if call.down_is_fast() {
        assert(ops[1] is Fp8GemvF16In);
    } else if call.weights.down_chscale != 0 {
        assert forall|i: int| 0 <= i < ops.len() implies !((#[trigger] ops[i]) is F16GemmF32) && !(
        ops[i] is Fp8GemvF16In) by {
            if 1 <= i < 1 + mid.ops.len() {
                assert(ops[i] == mid.ops[i - 1]);
            }
        }
    }
}

/// Whether a variable is set to a text.
pub open spec fn is_text(var: Option<String>, text: Seq<char>) -> bool {
    var matches Some(s) && s@ == text
}

/// A multiplication with channel scales lays scales out exactly where it goes to
/// the blockwise kernel: it has at least 128 rows and block scales, the path is
/// not switched off, and the sm_120 library can lay both scales out and has said
/// how much room they take. Else it goes through the kernel library where that is
/// loaded, and else through cuBLASLt.
pub proof fn libraries_decide_the_multiplication(
    cutlass: CutlassBackend,
    kernels: Gemma4LayerKernels,
    g: ChannelscaleGemm,
    enabled: bool,
    sf: SfBytes,
    stream: u64,
)
    ensures
        ({
            let run = channelscale_run(cutlass, kernels, g, enabled, sf, stream);
            let blockwise = g.m >= 128 && g.b_blockscale != 0 && enabled && sf.sfa != 0 && sf.sfb
                != 0 && (cutlass matches CutlassBackend::SoSm120(lib) && (
            lib.entries matches Some(e) && e.prep_sfa is Some && e.prep_sfb is Some));
            &&& blockwise ==> run.ops.len() >= 2 && run.ops[0] is CutlassPrep
                && run.ops[1] is CutlassPrep
            &&& blockwise && run.end is Ok ==> run.ops.len() == 3 && run.ops[2] is CutlassGemm
            &&& !blockwise && cutlass is So && run.end is Ok ==> run.ops.len() == 1
                && run.ops[0] is CutlassGemm
            &&& !blockwise && !(cutlass is So) ==> run.end is Ok && through_lt(run.ops) && (
            run.ops[0] is Fp8GemmF32 <==> g.b_chscale != 0)
        }),
{
    let run = channelscale_run(cutlass, kernels, g, enabled, sf, stream);
    if !(cutlass is So) && run.ops.len() > 0 {
        assert(run.ops[0] == run.ops.first());
    }
}

/// Some operation is the unified prefill.
pub open spec fn in_one_prefill(ops: Seq<LayerOp>) -> bool {
    exists|i: int| 0 <= i < ops.len() && (#[trigger] ops[i]) is UnifiedPrefill
}

/// A prompt of more than one token is attended to in one launch exactly where the
/// layer's backend has the unified kernel and it is not switched off with a zero;
/// else there is one decode per token, each of one sequence. In a decode step the
/// cache decides: half-precision keys and values are read as such, FP8 ones as
/// FP8.
pub proof fn phases_decide_the_attention(call: LayerCall<'_>)
    requires
        call.build is Cuda,
        call.attention_run().end is Ok,
    ensures
        ({
            let backend = if call.dims.layer_type is SlidingAttention {
                *call.sliding_attention
            } else {
                *call.global_attention
            };
            let unified = call.phase is Prefill && call.dims.num_tokens > 1 && !is_text(
                call.env.unified_prefill,
                "0"@,
            ) && (backend matches AttentionBackend::Fa2Ptx(fa2) && (fa2.entries matches Some(e)
                && e.fn_prefill_fp8kv_unified is Some));
            let ops = call.attention_run().ops;
            &&& in_one_prefill(ops) <==> unified
            &&& call.phase is Prefill && !unified ==> ops.len() == call.dims.num_tokens + 2
            &&& call.phase is Decode ==> ops.len() == 2
            &&& call.phase is Decode && call.dims.f16_kv ==> ops[0] is Raw && ops[1] is PagedDecode
            &&& call.phase is Decode && !call.dims.f16_kv ==> ops[0] is RopePartialFp8Kv
                && ops[1] is PagedDecodeFp8
        }),
{
    let ops = call.attention_run().ops;
    if call.phase is Prefill && call.takes_unified() {
        assert(ops[1] is UnifiedPrefill);
    }
}

/// The tiling of a unified prefill follows the heads: the query heads of a KV head
/// share the sixteen rows of a block, tiles are 32 wide up to a head dimension of
/// 256 and 16 wide beyond, and tensor cores are used where the variable is one.
pub proof fn tilings_follow_the_heads(call: LayerCall<'_>, cu_seqlens_q: u64)
    requires
        call.build is Cuda,
        representable(call.dims),
        call.unified_run(cu_seqlens_q).end is Ok,
    ensures
        call.unified_run(cu_seqlens_q).ops.len() == 1,
        call.unified_run(cu_seqlens_q).ops[0] matches LayerOp::UnifiedPrefill(u) && (
        u.raw.args matches KernelArgs::UnifiedPrefill(a) && {
            &&& a.num_queries_per_kv * a.num_kv_heads == a.num_heads
            &&& a.num_queries_per_kv > 0 ==> a.block_q * a.num_queries_per_kv <= 16 < (a.block_q
                + 1) * a.num_queries_per_kv
            &&& a.tile_size == if call.dims.head_dim <= 256 {
                32int
            } else {
                16
            }
            &&& a.use_mma == if is_text(call.env.unified_prefill_mma, "1"@) {
                1int
            } else {
                0
            }
        }),
{
    let p = call.prefill_params();
    valid_parameters_divide_evenly(p);
    let g = call.dims.num_kv_heads as int;
    let h = call.dims.num_heads as int;
    let q = choose|per_kv: int| #[trigger]
        (per_kv * p.num_kv_heads) == p.num_heads && per_kv >= 0;
    assert(h / g == q && q * g == h && q <= h) by (nonlinear_arith)
        requires
            g > 0,
            q >= 0,
            q * g == h,
    ;
    if q > 0 {
        let b = 16int / q;
        assert(b * q <= 16 < (b + 1) * q && 0 <= b <= 16) by (nonlinear_arith)
            requires
                q > 0,
                b == 16int / q,
        ;
    }
}

/// Whether the sm_120 library is asked about the scales of a multiplication with
/// these extents: about the activations by rows and depth, about the weights by
/// columns and depth.
pub open spec fn asks_about(q: SfQuery, cutlass: CutlassBackend, m: i32, n: i32, k: i32) -> bool {
    match cutlass {
        CutlassBackend::SoSm120(lib) => match lib.entries {
            Some(e) => {
                &&& e.sfa_bytes matches Some(entry) ==> q.sfa == (SizeOf::AskScales {
                    entry,
                    outer: m,
                    inner: k,
                })
                &&& e.sfb_bytes matches Some(entry) ==> q.sfb == (SizeOf::AskScales {
                    entry,
                    outer: n,
                    inner: k,
                })
                &&& e.sfa_bytes is None ==> q.sfa == SizeOf::Bytes(0)
                &&& e.sfb_bytes is None ==> q.sfb == SizeOf::Bytes(0)
            },
            None => q.sfa == SizeOf::Bytes(0) && q.sfb == SizeOf::Bytes(0),
        },
        _ => q.sfa == SizeOf::Bytes(0) && q.sfb == SizeOf::Bytes(0),
    }
}

/// What a layer asks about the scales of its projections is asked with the extents
/// that its multiplications then have.
pub proof fn questions_are_about_the_multiplications(call: LayerCall<'_>, r: LayerSfQueries)
    requires
        call.dims.widths_fit(),
        2 * call.dims.intermediate <= u32::MAX,
        call_ensures(layer_sf_queries, (&call.dims, call.cutlass), r),
    ensures
        ({
            let c = *call.cutlass;
            let qkv = call.qkv_gemm();
            let o = call.o_gemm();
            let gate_up = call.gate_up_gemm();
            let down = call.down_gemm();
            &&& asks_about(r.qkv, c, qkv.m, qkv.n, qkv.k)
            &&& asks_about(r.o, c, o.m, o.n, o.k)
            &&& asks_about(r.gate_up, c, gate_up.m, gate_up.n, gate_up.k)
            &&& asks_about(r.down, c, down.m, down.n, down.k)
        }),
{
}

/// A launch that scales a matrix has a thread for every element, and no block of
/// threads too many; it names the matrix, the scales and the extents.
pub proof fn scalings_cover_the_matrix(
    kernel: KernelFn,
    data: u64,
    scale: u64,
    m: u32,
    n: u32,
    stream: u64,
    cols: RawLaunch,
    rows: RawLaunch,
)
    requires
        m <= i32::MAX,
        n <= i32::MAX,
        m * n + 255 <= u32::MAX,
        call_ensures(launch_scale_cols_f32, (kernel, data, scale, m, n, stream), cols),
        call_ensures(launch_scale_rows_f32_ratio, (kernel, data, scale, m, n, stream), rows),
    ensures
        cols == rows,
        cols.kernel == kernel,
        cols.stream == stream,
        cols.grid.0 * cols.block.0 >= m * n,
        cols.grid.0 * cols.block.0 < m * n + cols.block.0,
        cols.grid.1 == 1 && cols.grid.2 == 1 && cols.block.1 == 1 && cols.block.2 == 1,
        cols.args matches KernelArgs::Scale(a) && a.data == data && a.scale == scale && a.m == m
            && a.n == n,
{
    assert(m * n >= 0) by (nonlinear_arith)
        requires
            m >= 0,
            n >= 0,
    ;
}

/// The soft cap is put on the logits that it was asked for, with the cap that it
/// was given.
pub proof fn caps_are_put_on_the_logits(
    kernel: KernelFn,
    logits: u64,
    num_tokens: u32,
    vocab: u32,
    cap: F32Bits,
    r: LayerOp,
)
    requires
        call_ensures(logit_softcap, (kernel, logits, num_tokens, vocab, cap), r),
    ensures
        r matches LayerOp::LogitSoftcap { kernel: k, num_tokens: t, vocab: v, cap: c, logits: l }
            && k == kernel && t == num_tokens && v == vocab && c == cap && l == logits,
{
}

/// Counting goes up by one, from one.
pub proof fn counting_starts_at_one(upto: i32, r: Vec<i32>)
    requires
        upto > 0,
        call_ensures(counting, (upto,), r),
    ensures
        r@.len() == upto,
        r@[0] == 1,
        r@.last() == upto,
        forall|i: int| 0 < i < r@.len() ==> #[trigger] r@[i] == r@[i - 1] + 1,
{
}

/// Whether a norm of heads is that of a layer: queries are normed by the weights
/// for queries and keys by those for keys, each from its place in the projection's
/// output to its own buffer, and a row of that output is all heads of queries, keys
/// and values.
pub open spec fn norms_heads(call: LayerCall<'_>, n: QkvNorm) -> bool {
    &&& n.q_in == call.scratch.q_out && n.q_gamma == call.weights.q_norm_gamma && n.q_out
        == call.scratch.q_normed
    &&& n.k_in == call.scratch.k_out && n.k_gamma == call.weights.k_norm_gamma && n.k_out
        == call.scratch.k_normed
    &&& n.v_in == call.scratch.v_out && n.v_out == call.scratch.v_normed
    &&& n.num_tokens == call.dims.num_tokens
    &&& n.head_dim == call.dims.head_dim
    &&& n.num_heads == call.dims.num_heads
    &&& n.num_kv_heads == call.dims.num_kv_heads
    &&& n.eps == call.dims.rms_eps
    &&& n.src_row_stride == n.num_heads * n.head_dim + 2 * (n.num_kv_heads * n.head_dim)
}

/// No operation of a list norms heads.
pub open spec fn norms_no_heads(ops: Seq<LayerOp>) -> bool {
    forall|i: int| 0 <= i < ops.len() ==> !((#[trigger] ops[i]) is QkvRmsnorm)
}

proof fn nothing_else_norms_heads(call: LayerCall<'_>)
    requires
        call.build is Cuda,
        call.forward_run().end is Ok,
    ensures
        norms_no_heads(call.attn_input_ops() + call.qkv_run().ops),
        norms_no_heads(call.attention_run().ops),
        norms_no_heads(call.o_quant_ops()),
        norms_no_heads(call.o_run().ops),
        norms_no_heads(call.ff_input_ops() + call.gate_up_run().ops),
        norms_no_heads(call.down_run().ops),
{
    product_norms_no_heads(call, call.qkv_gemm(), call.sf.qkv);
    product_norms_no_heads(call, call.o_gemm(), call.sf.o);
    product_norms_no_heads(call, call.gate_up_gemm(), call.sf.gate_up);
    product_norms_no_heads(call, call.down_gemm(), call.sf.down);
    assert(norms_no_heads(call.attn_input_ops()));
    assert(norms_no_heads(call.qkv_run().ops));
    assert(norms_no_heads(call.ff_input_ops()));
    assert(norms_no_heads(call.gate_up_run().ops));
}

proof fn product_norms_no_heads(call: LayerCall<'_>, g: ChannelscaleGemm, sf: SfBytes)
    ensures
        norms_no_heads(
            channelscale_run(
                *call.cutlass,
                *call.kernels,
                g,
                call.env.blockwise_enabled(),
                sf,
                call.stream,
            ).ops,
        ),
{
}

/// A forward pass norms the heads once, and every norm of heads in what it appends
/// takes for the queries what belongs to the queries and for the keys what belongs
/// to the keys.
pub proof fn heads_are_normed_by_their_own_weights(
    call: LayerCall<'_>,
    ops: &mut Vec<LayerOp>,
    i: int,
)
    requires
        call.build is Cuda,
        call.sizes_fit(),
        call_ensures(
            gemma4_forward_phase,
            (
                call.build,
                call.dims,
                call.kernels,
                call.weights,
                call.scratch,
                call.meta,
                call.cutlass,
                call.sliding_attention,
                call.global_attention,
                call.env,
                call.sf,
                call.residual,
                call.stream,
                call.phase,
                ops,
            ),
            Ok::<(), RvllmError>(()),
        ),
        old(ops)@.len() <= i < final(ops)@.len(),
    ensures
        final(ops)@[i] matches LayerOp::QkvRmsnorm(n) ==> norms_heads(call, n),
        exists|k: int|
            old(ops)@.len() <= k < final(ops)@.len() && (#[trigger] final(ops)@[k]) is QkvRmsnorm,
        forall|j: int|
            old(ops)@.len() <= j < final(ops)@.len() && (#[trigger] final(ops)@[j]) is QkvRmsnorm
                && final(ops)@[i] is QkvRmsnorm ==> j == i,
{
    nothing_else_norms_heads(call);
    widths_are_ordered(call.dims);
    let head = call.attn_input_ops() + call.qkv_run().ops;
    let n = seq![call.qkv_norm_op()];
    let tail = call.attention_run().ops + call.o_quant_ops() + call.o_run().ops + (
    call.ff_input_ops() + call.gate_up_run().ops) + call.down_run().ops;
    let all = call.forward_run().ops;
    assert(all =~= head + n + tail);
    assert(norms_no_heads(tail));
    let start = old(ops)@.len() as int;
    assert(final(ops)@ =~= old(ops)@ + all);
    assert forall|j: int|
        start <= j < final(ops)@.len() && (#[trigger] final(ops)@[j]) is QkvRmsnorm implies j
        == start + head.len() by {
        let k = j - start;
        assert(final(ops)@[j] == all[k]);
        if k < head.len() {
            assert(all[k] == head[k]);
        } else if k > head.len() {
            assert(all[k] == tail[k - head.len() - 1]);
        }
    }
    assert(final(ops)@[start + head.len()] == n[0]);
}

/// Where scales are laid out for the blockwise kernel, those of the activations come
/// first and those of the weights behind them, on the next multiple of sixteen
/// bytes; the multiplication then reads them from there.
pub proof fn scales_are_laid_out_apart(
    cutlass: CutlassBackend,
    kernels: Gemma4LayerKernels,
    g: ChannelscaleGemm,
    enabled: bool,
    sf: SfBytes,
    stream: u64,
)
    requires
        channelscale_fits(cutlass, g, enabled, sf),
        channelscale_run(cutlass, kernels, g, enabled, sf, stream).end is Ok,
        channelscale_run(cutlass, kernels, g, enabled, sf, stream).ops[0] is CutlassPrep,
    ensures
        ({
            let ops = channelscale_run(cutlass, kernels, g, enabled, sf, stream).ops;
            &&& ops.len() == 3
            &&& ops[0] matches LayerOp::CutlassPrep(a) && (ops[1] matches LayerOp::CutlassPrep(b)
                && (ops[2] matches LayerOp::CutlassGemm(c) && {
                &&& a.src == g.a_scale && a.dst == g.scratch_f32 && c.a_scale == a.dst
                &&& b.src == g.b_blockscale && c.b_scale == b.dst
                &&& sf.sfa <= b.dst - a.dst < sf.sfa + 16
                &&& (b.dst - a.dst) % 16 == 0
                &&& a.dim_outer == g.m && b.dim_outer == g.n
                &&& a.dim_inner == g.k && b.dim_inner == g.k
                &&& c.m == g.m && c.n == g.n && c.k == g.k
                &&& c.a == g.a_fp8 && c.b == g.b_fp8 && c.output == g.output_f16
            }))
        }),
{
}

/// An activation is not quantized where the projection behind it, with channel
/// scales, is multiplied row by row from half precision; the attention output is not
/// quantized either where both the cache and the output weights are in half
/// precision. Everywhere else it is, once.
pub proof fn activations_are_quantized_where_they_are_read(call: LayerCall<'_>)
    requires
        call.build is Cuda,
    ensures
        ({
            let w = call.weights;
            &&& call.attn_input_ops().len() == if row_by_row(call.qkv_run().ops) && w.qkv_chscale
                != 0 {
                0nat
            } else {
                1
            }
            &&& call.o_quant_ops().len() == if (row_by_row(call.o_run().ops) && w.o_chscale != 0)
                || (call.dims.f16_kv && w.o_f16 != 0) {
                0nat
            } else {
                1
            }
            &&& call.ff_input_ops().len() == if row_by_row(call.gate_up_run().ops)
                && w.gate_up_chscale != 0 {
                0nat
            } else {
                1
            }
        }),
{
    formats_decide_the_kernels(call);
}

/// A host build issues no multiplication and no attention: the input norm, the norm
/// of the heads, the quantization of the attention output where something will read
/// it, and the norm before the feedforward half.
pub proof fn host_builds_issue_norms_alone(call: LayerCall<'_>)
    requires
        call.build is Host,
    ensures
        ({
            let run = call.forward_run();
            let quantized = !call.dims.f16_kv || call.weights.o_f16 == 0;
            let n = run.ops.len() as int;
            &&& run.end is Ok
            &&& n == if quantized {
                4int
            } else {
                3
            }
            &&& run.ops[0] matches LayerOp::RmsnormFp8Quant { quant, gamma, .. } && gamma
                == call.weights.attn_norm_gamma && quant.input == call.residual
            &&& run.ops[1] matches LayerOp::QkvRmsnorm(q) && q.q_gamma == call.weights.q_norm_gamma
                && q.k_gamma == call.weights.k_norm_gamma
            &&& quantized ==> (run.ops[2] matches LayerOp::QuantizeFp8PerToken(q) && q.input
                == call.scratch.attn_out)
            &&& run.ops[n - 1] matches LayerOp::RmsnormFp8Quant { quant, gamma, .. } && gamma
                == call.weights.pre_ff_norm_gamma && quant.input == call.residual
        }),
{
}

} // verus!
