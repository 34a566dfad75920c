//! What holds of every planned layer.

use crate::cutlass::lib_so::CutlassBackend;
use crate::fused::launch_raw::KernelArgs;
use crate::runtime::gemma4_layer_exec::{
    channelscale_run, takes_blockwise, ChannelscaleGemm, Gemma4LayerKernels, Gemma4Phase,
    LayerCall, SfBytes, BLOCKWISE_M_MIN,
};
use crate::runtime::layer_ops::{LayerOp, Run};
use vstd::prelude::*;

verus! {

/// The FP8 activation that an operation multiplies.
pub open spec fn reads_fp8(op: LayerOp) -> Option<u64> {
    match op {
        LayerOp::Fp8Gemm(g) => Some(g.a),
        LayerOp::Fp8GemmF32(g) => Some(g.a),
        LayerOp::CutlassGemm(c) => Some(c.a),
        _ => None,
    }
}

/// The FP8 activation that an operation produces.
pub open spec fn writes_fp8(op: LayerOp) -> Option<u64> {
    match op {
        LayerOp::RmsnormFp8Quant { quant, .. } => Some(quant.out_fp8),
        LayerOp::QuantizeFp8PerToken(quant) => Some(quant.out_fp8),
        LayerOp::GeluMulFp8Quant(quant) => Some(quant.out_fp8),
        _ => None,
    }
}

/// Whether every FP8 activation that is multiplied was produced before.
pub open spec fn fed(ops: Seq<LayerOp>) -> bool {
    forall|i: int|
        0 <= i < ops.len() && reads_fp8(#[trigger] ops[i]) is Some ==> exists|j: int|
            0 <= j < i && writes_fp8(#[trigger] ops[j]) == reads_fp8(ops[i])
}

/// Whether every operation that multiplies an FP8 activation multiplies `a`.
pub open spec fn reads_only(ops: Seq<LayerOp>, a: u64) -> bool {
    forall|i: int|
        0 <= i < ops.len() && reads_fp8(#[trigger] ops[i]) is Some ==> reads_fp8(ops[i]) == Some(a)
}

proof fn channelscale_reads_its_activation(
    cutlass: CutlassBackend,
    kernels: Gemma4LayerKernels,
    g: ChannelscaleGemm,
    enabled: bool,
    sf: SfBytes,
    stream: u64,
)
    ensures
        reads_only(channelscale_run(cutlass, kernels, g, enabled, sf, stream).ops, g.a_fp8),
{
    let run = channelscale_run(cutlass, kernels, g, enabled, sf, stream);
    assert forall|i: int|
        0 <= i < run.ops.len() && reads_fp8(#[trigger] run.ops[i]) is Some implies reads_fp8(
        run.ops[i],
    ) == Some(g.a_fp8) by {
        if takes_blockwise(cutlass, g, enabled, sf) {
            assert(run.ops.len() <= 3);
        }
    }
}

proof fn a_producer_feeds(head: Seq<LayerOp>, tail: Seq<LayerOp>, a: u64)
    requires
        head.len() == 1,
        writes_fp8(head[0]) == Some(a),
        reads_fp8(head[0]) is None,
        reads_only(tail, a),
    ensures
        fed(head + tail),
{
    let ops = head + tail;
    assert forall|i: int| 0 <= i < ops.len() && reads_fp8(#[trigger] ops[i]) is Some implies exists|
        j: int,
    | 0 <= j < i && writes_fp8(#[trigger] ops[j]) == reads_fp8(ops[i]) by {
        assert(i > 0);
        assert(ops[i] == tail[i - 1]);
        assert(writes_fp8(ops[0]) == reads_fp8(ops[i]));
    }
}

/// A quantization is skipped only where the projection behind it reads the
/// half-precision activation: every FP8 activation that a projection multiplies
/// was produced for that projection.
pub proof fn every_projection_is_fed(call: LayerCall)
    ensures
        fed(call.attn_input_ops() + call.qkv_run().ops),
        fed(call.o_quant_ops() + call.o_run().ops),
        fed(call.ff_input_ops() + call.gate_up_run().ops),
        fed(call.down_run().ops),
{
    let blockwise = call.env.blockwise_enabled();
    if call.build is Cuda {
        channelscale_reads_its_activation(
            *call.cutlass,
            *call.kernels,
            call.qkv_gemm(),
            blockwise,
            call.sf.qkv,
            call.stream,
        );
        channelscale_reads_its_activation(
            *call.cutlass,
            *call.kernels,
            call.o_gemm(),
            blockwise,
            call.sf.o,
            call.stream,
        );
        channelscale_reads_its_activation(
            *call.cutlass,
            *call.kernels,
            call.gate_up_gemm(),
            blockwise,
            call.sf.gate_up,
            call.stream,
        );
        channelscale_reads_its_activation(
            *call.cutlass,
            *call.kernels,
            call.down_gemm(),
            blockwise,
            call.sf.down,
            call.stream,
        );
        assert(reads_only(call.qkv_run().ops, call.scratch.hidden_fp8));
        if !call.skips_attn_quant() {
            a_producer_feeds(
                call.attn_input_ops(),
                call.qkv_run().ops,
                call.scratch.hidden_fp8,
            );
        }
        assert(reads_only(call.o_run().ops, call.scratch.attn_out_fp8));
        if call.o_quant_ops().len() > 0 {
            a_producer_feeds(call.o_quant_ops(), call.o_run().ops, call.scratch.attn_out_fp8);
        }
        assert(reads_only(call.gate_up_run().ops, call.scratch.hidden_fp8));
        if !call.skips_ff_quant() {
            a_producer_feeds(
                call.ff_input_ops(),
                call.gate_up_run().ops,
                call.scratch.hidden_fp8,
            );
        }
        let down = call.down_run().ops;
        if call.weights.down_f16 == 0 && !call.down_is_fast() {
            let tail = down.skip(1);
            assert(down =~= seq![call.gelu_fp8_op()] + tail);
            assert(reads_only(tail, call.scratch.mlp_out_fp8)) by {
                if call.weights.down_chscale != 0 {
                    let product = channelscale_run(
                        *call.cutlass,
                        *call.kernels,
                        call.down_gemm(),
                        blockwise,
                        call.sf.down,
                        call.stream,
                    );
                    assert forall|i: int|
                        0 <= i < tail.len() && reads_fp8(#[trigger] tail[i]) is Some implies reads_fp8(
                        tail[i],
                    ) == Some(call.scratch.mlp_out_fp8) by {
                        assert(down[i + 1] == tail[i]);
                        if i < product.ops.len() {
                            assert(product.ops[i] == tail[i]);
                        }
                    }
                }
            }
            a_producer_feeds(seq![call.gelu_fp8_op()], tail, call.scratch.mlp_out_fp8);
        }
    }
}

/// The two-dimensional block scales that an operation reads.
pub open spec fn reads_blockscale(op: LayerOp) -> Option<u64> {
    match op {
        LayerOp::Fp8GemvF16In { blockscale, .. } => Some(blockscale),
        LayerOp::CutlassPrep(c) => if c.kernel@ == "prep_sfb_sm120"@ {
            Some(c.src)
        } else {
            None
        },
        _ => None,
    }
}

/// Whether no operation reads block scales through a null pointer.
pub open spec fn blockscales_present(ops: Seq<LayerOp>) -> bool {
    forall|i: int|
        0 <= i < ops.len() && reads_blockscale(#[trigger] ops[i]) is Some ==> reads_blockscale(
            ops[i],
        ) != Some(0u64)
}

proof fn kernel_names_differ()
    ensures
        "prep_sfa_sm120"@ != "prep_sfb_sm120"@,
        "fp8_gemm_channelscale"@ != "fp8_gemm_blockscale_sm120"@,
{
    reveal_strlit("prep_sfa_sm120");
    reveal_strlit("prep_sfb_sm120");
    reveal_strlit("fp8_gemm_channelscale");
    reveal_strlit("fp8_gemm_blockscale_sm120");
    assert("prep_sfa_sm120"@[7] == 'a');
    assert("prep_sfb_sm120"@[7] == 'b');
    assert("fp8_gemm_channelscale"@.len() == 21);
    assert("fp8_gemm_blockscale_sm120"@.len() == 25);
}

proof fn channelscale_has_blockscales(
    cutlass: CutlassBackend,
    kernels: Gemma4LayerKernels,
    g: ChannelscaleGemm,
    enabled: bool,
    sf: SfBytes,
    stream: u64,
)
    ensures
        blockscales_present(channelscale_run(cutlass, kernels, g, enabled, sf, stream).ops),
{
    kernel_names_differ();
    let run = channelscale_run(cutlass, kernels, g, enabled, sf, stream);
    if takes_blockwise(cutlass, g, enabled, sf) {
        assert(run.ops.len() <= 3);
    }
}

proof fn blockscales_of_both(a: Run, b: Run)
    requires
        blockscales_present(a.ops),
        blockscales_present(b.ops),
    ensures
        blockscales_present(a.before(b).ops),
{
    let ops = a.before(b).ops;
    assert forall|i: int|
        0 <= i < ops.len() && reads_blockscale(#[trigger] ops[i]) is Some implies reads_blockscale(
        ops[i],
    ) != Some(0u64) by {
        if i < a.ops.len() {
            assert(ops[i] == a.ops[i]);
        } else {
            assert(ops[i] == b.ops[i - a.ops.len()]);
        }
    }
}

proof fn attention_half_has_blockscales(call: LayerCall)
    ensures
        blockscales_present(call.attention_half().ops),
{
    let blockwise = call.env.blockwise_enabled();
    let q = Run::of(call.attn_input_ops()).before(call.qkv_run());
    let n = q.before(Run::of(seq![call.qkv_norm_op()]));
    let t = n.before(call.attention_run());
    let z = t.before(Run::of(call.o_quant_ops()));
    assert(blockscales_present(call.qkv_run().ops)) by {
        channelscale_has_blockscales(
            *call.cutlass,
            *call.kernels,
            call.qkv_gemm(),
            blockwise,
            call.sf.qkv,
            call.stream,
        );
    }
    assert(blockscales_present(call.attention_run().ops));
    assert(blockscales_present(call.o_run().ops)) by {
        let product = channelscale_run(
            *call.cutlass,
            *call.kernels,
            call.o_gemm(),
            blockwise,
            call.sf.o,
            call.stream,
        );
        channelscale_has_blockscales(
            *call.cutlass,
            *call.kernels,
            call.o_gemm(),
            blockwise,
            call.sf.o,
            call.stream,
        );
        blockscales_of_both(
            product,
            Run::of(seq![call.norm_add_f16in(call.weights.post_attn_norm_gamma, 0)]),
        );
    }
    blockscales_of_both(Run::of(call.attn_input_ops()), call.qkv_run());
    blockscales_of_both(q, Run::of(seq![call.qkv_norm_op()]));
    blockscales_of_both(n, call.attention_run());
    blockscales_of_both(t, Run::of(call.o_quant_ops()));
    blockscales_of_both(z, call.o_run());
}

proof fn feedforward_half_has_blockscales(call: LayerCall)
    ensures
        blockscales_present(call.feedforward_half().ops),
{
    let blockwise = call.env.blockwise_enabled();
    let g = Run::of(call.ff_input_ops()).before(call.gate_up_run());
    assert(blockscales_present(call.gate_up_run().ops)) by {
        channelscale_has_blockscales(
            *call.cutlass,
            *call.kernels,
            call.gate_up_gemm(),
            blockwise,
            call.sf.gate_up,
            call.stream,
        );
    }
    assert(blockscales_present(call.down_run().ops)) by {
        let product = channelscale_run(
            *call.cutlass,
            *call.kernels,
            call.down_gemm(),
            blockwise,
            call.sf.down,
            call.stream,
        );
        channelscale_has_blockscales(
            *call.cutlass,
            *call.kernels,
            call.down_gemm(),
            blockwise,
            call.sf.down,
            call.stream,
        );
        let gelu = Run::of(seq![call.gelu_fp8_op()]);
        blockscales_of_both(gelu, product);
        blockscales_of_both(
            gelu.before(product),
            Run::of(
                seq![
                    call.norm_add_f16in(
                        call.weights.post_ff_norm_gamma,
                        call.weights.layer_scalar_ptr,
                    ),
                ],
            ),
        );
    }
    blockscales_of_both(Run::of(call.ff_input_ops()), call.gate_up_run());
    blockscales_of_both(g, call.down_run());
}

/// Weights without two-dimensional block scales never reach a kernel that reads
/// them.
pub proof fn block_scales_are_never_null(call: LayerCall)
    ensures
        blockscales_present(call.forward_run().ops),
{
    attention_half_has_blockscales(call);
    feedforward_half_has_blockscales(call);
    blockscales_of_both(call.attention_half(), call.feedforward_half());
}

/// Whether an operation applies the scales of the weights of `g`, by channel or
/// by block.
pub open spec fn applies_weight_scales(op: LayerOp, g: ChannelscaleGemm) -> bool {
    match op {
        LayerOp::CutlassGemm(c) => c.b_scale == g.b_chscale,
        LayerOp::CutlassPrep(c) => g.b_blockscale != 0 && c.src == g.b_blockscale,
        LayerOp::Raw(launch) => launch.args matches KernelArgs::Scale(a) && a.scale == g.b_chscale,
        _ => false,
    }
}

/// Where the weights have channel scales, every path applies the channel scales
/// or the block scales, and none multiplies into the output with the scalar
/// alone.
pub proof fn channel_scales_are_never_dropped(
    cutlass: CutlassBackend,
    kernels: Gemma4LayerKernels,
    g: ChannelscaleGemm,
    enabled: bool,
    sf: SfBytes,
    stream: u64,
)
    requires
        g.b_chscale != 0,
        channelscale_run(cutlass, kernels, g, enabled, sf, stream).end is Ok,
    ensures
        ({
            let ops = channelscale_run(cutlass, kernels, g, enabled, sf, stream).ops;
            &&& exists|i: int| 0 <= i < ops.len() && applies_weight_scales(#[trigger] ops[i], g)
            &&& forall|i: int| 0 <= i < ops.len() ==> !(#[trigger] ops[i] is Fp8Gemm)
        }),
{
    let ops = channelscale_run(cutlass, kernels, g, enabled, sf, stream).ops;
    if takes_blockwise(cutlass, g, enabled, sf) {
        assert(ops.len() == 3);
        assert(applies_weight_scales(ops[1], g));
    } else if cutlass is So {
        assert(applies_weight_scales(ops[0], g));
    } else if g.m > 1 {
        assert(applies_weight_scales(ops[2], g));
    } else {
        assert(applies_weight_scales(ops[1], g));
    }
}

/// The blockwise kernel is called only with as many rows as it takes.
pub proof fn blockwise_calls_are_large(
    cutlass: CutlassBackend,
    kernels: Gemma4LayerKernels,
    g: ChannelscaleGemm,
    enabled: bool,
    sf: SfBytes,
    stream: u64,
)
    ensures
        forall|i: int|
            0 <= i < channelscale_run(cutlass, kernels, g, enabled, sf, stream).ops.len() ==> (
            #[trigger] channelscale_run(cutlass, kernels, g, enabled, sf, stream).ops[i] matches LayerOp::CutlassGemm(
                c,
            ) ==> c.kernel@ == "fp8_gemm_blockscale_sm120"@ ==> c.m >= BLOCKWISE_M_MIN),
{
    kernel_names_differ();
    let run = channelscale_run(cutlass, kernels, g, enabled, sf, stream);
    if takes_blockwise(cutlass, g, enabled, sf) {
        assert(run.ops.len() <= 3);
    }
}

/// The factor that an operation applies to the residual it adds to.
pub open spec fn residual_factor(op: LayerOp) -> Option<u64> {
    match op {
        LayerOp::NormAddResidual(n) => Some(n.layer_scalar),
        LayerOp::NormAddResidualF16In(n) => Some(n.layer_scalar),
        _ => None,
    }
}

/// Whether no operation adds to the residual.
pub open spec fn leaves_residual(ops: Seq<LayerOp>) -> bool {
    forall|i: int| 0 <= i < ops.len() ==> residual_factor(#[trigger] ops[i]) is None
}

/// Whether only the last operation adds to the residual, with this factor.
pub open spec fn adds_last(ops: Seq<LayerOp>, factor: u64) -> bool {
    &&& ops.len() > 0
    &&& residual_factor(ops.last()) == Some(factor)
    &&& leaves_residual(ops.drop_last())
}

proof fn adding_after(head: Seq<LayerOp>, tail: Seq<LayerOp>, factor: u64)
    requires
        leaves_residual(head),
        adds_last(tail, factor),
    ensures
        adds_last(head + tail, factor),
{
    let ops = head + tail;
    assert(ops.last() == tail.last());
    assert forall|i: int| 0 <= i < ops.drop_last().len() implies residual_factor(
        #[trigger] ops.drop_last()[i],
    ) is None by {
        if i < head.len() {
            assert(ops.drop_last()[i] == head[i]);
        } else {
            assert(ops.drop_last()[i] == tail.drop_last()[i - head.len()]);
        }
    }
}

proof fn attention_half_adds_last(call: LayerCall)
    requires
        call.build is Cuda,
        call.attention_half().end is Ok,
    ensures
        adds_last(call.attention_half().ops, 0),
{
    let o = call.o_run().ops;
    assert(adds_last(o, 0)) by {
        let product = channelscale_run(
            *call.cutlass,
            *call.kernels,
            call.o_gemm(),
            call.env.blockwise_enabled(),
            call.sf.o,
            call.stream,
        );
        if call.weights.o_f16 == 0 && !call.o_is_fast() && call.weights.o_chscale != 0 {
            assert(leaves_residual(product.ops)) by {
                if takes_blockwise(
                    *call.cutlass,
                    call.o_gemm(),
                    call.env.blockwise_enabled(),
                    call.sf.o,
                ) {
                    assert(product.ops.len() <= 3);
                }
            }
            adding_after(
                product.ops,
                seq![call.norm_add_f16in(call.weights.post_attn_norm_gamma, 0)],
                0,
            );
        }
    }
    let before_o = call.attn_input_ops() + call.qkv_run().ops + seq![call.qkv_norm_op()]
        + call.attention_run().ops + call.o_quant_ops();
    assert(leaves_residual(call.qkv_run().ops)) by {
        if takes_blockwise(
            *call.cutlass,
            call.qkv_gemm(),
            call.env.blockwise_enabled(),
            call.sf.qkv,
        ) {
            assert(call.weights.qkv_f16 == 0 && !call.qkv_is_fast() && call.weights.qkv_chscale != 0
                ==> call.qkv_run().ops.len() <= 3);
        }
    }
    assert(leaves_residual(before_o));
    assert(call.attention_half().ops =~= before_o + o);
    adding_after(before_o, o, 0);
}

proof fn feedforward_half_adds_last(call: LayerCall)
    requires
        call.build is Cuda,
        call.feedforward_half().end is Ok,
    ensures
        adds_last(call.feedforward_half().ops, call.weights.layer_scalar_ptr),
{
    let down = call.down_run().ops;
    let factor = call.weights.layer_scalar_ptr;
    assert(adds_last(down, factor)) by {
        let product = channelscale_run(
            *call.cutlass,
            *call.kernels,
            call.down_gemm(),
            call.env.blockwise_enabled(),
            call.sf.down,
            call.stream,
        );
        if call.weights.down_f16 == 0 && !call.down_is_fast() && call.weights.down_chscale != 0 {
            assert(leaves_residual(product.ops)) by {
                if takes_blockwise(
                    *call.cutlass,
                    call.down_gemm(),
                    call.env.blockwise_enabled(),
                    call.sf.down,
                ) {
                    assert(product.ops.len() <= 3);
                }
            }
            let last = seq![call.norm_add_f16in(call.weights.post_ff_norm_gamma, factor)];
            adding_after(seq![call.gelu_fp8_op()] + product.ops, last, factor);
            assert(down =~= seq![call.gelu_fp8_op()] + product.ops + last);
        }
    }
    let before_down = call.ff_input_ops() + call.gate_up_run().ops;
    assert(leaves_residual(call.gate_up_run().ops)) by {
        if takes_blockwise(
            *call.cutlass,
            call.gate_up_gemm(),
            call.env.blockwise_enabled(),
            call.sf.gate_up,
        ) {
            assert(call.weights.gate_up_f16 == 0 && !call.gate_up_is_fast()
                && call.weights.gate_up_chscale != 0 ==> call.gate_up_run().ops.len() <= 3);
        }
    }
    assert(call.feedforward_half().ops =~= before_down + down);
    adding_after(before_down, down, factor);
}

/// The residual is added to once in each half of the layer, at its end, and the
/// layer scalar is applied once, by the last operation.
pub proof fn layer_scalar_is_applied_once(call: LayerCall)
    requires
        call.build is Cuda,
        call.forward_run().end is Ok,
    ensures
        adds_last(call.attention_half().ops, 0),
        adds_last(call.feedforward_half().ops, call.weights.layer_scalar_ptr),
        call.forward_run().ops == call.attention_half().ops + call.feedforward_half().ops,
{
    attention_half_adds_last(call);
    feedforward_half_adds_last(call);
}

/// A prefill by single decodes uploads the numbers from one to the token count
/// and then decodes token by token; the decode of token `qi` reads its context
/// length from the entry that holds `qi + 1`.
pub proof fn each_prompt_token_attends_to_its_prefix(call: LayerCall, cu_seqlens_q: u64, qi: int)
    requires
        0 <= qi < call.dims.num_tokens <= i32::MAX,
        cu_seqlens_q + 4 * qi <= u64::MAX,
    ensures
        call.per_qi_ops(cu_seqlens_q).len() == call.dims.num_tokens + 1,
        call.per_qi_ops(cu_seqlens_q)[0] == (LayerOp::UploadCounting {
            dst: cu_seqlens_q,
            upto: call.dims.num_tokens as i32,
        }),
        call.per_qi_ops(cu_seqlens_q)[qi + 1] matches LayerOp::PagedDecodeFp8(d)
            && d.context_lens == cu_seqlens_q + 4 * qi && d.params.num_seqs == 1,
{
}

/// The prefill of a single token is a decode: the same operands, with the
/// context length read from the uploaded numbers.
pub proof fn single_token_prefill_is_a_decode(call: LayerCall, cu_seqlens_q: u64)
    requires
        call.build is Cuda,
        call.dims.num_tokens == 1,
        !call.dims.f16_kv,
    ensures
        ({
            let prefill = LayerCall {
                phase: Gemma4Phase::Prefill { cu_seqlens_q, max_seqlen_q: 1, num_seqs: 1 },
                ..call
            };
            let decode = LayerCall { phase: Gemma4Phase::Decode, ..call };
            let p = prefill.attention_run();
            let d = decode.attention_run();
            &&& p.end is Ok && d.end is Ok
            &&& p.ops.len() == 3 && d.ops.len() == 2
            &&& p.ops[0] == d.ops[0]
            &&& p.ops[1] == (LayerOp::UploadCounting { dst: cu_seqlens_q, upto: 1 })
            &&& p.ops[2] is PagedDecodeFp8 && d.ops[1] is PagedDecodeFp8
            &&& p.ops[2]->PagedDecodeFp8_0 == (crate::runtime::layer_ops::DecodeFp8 {
                context_lens: cu_seqlens_q,
                ..d.ops[1]->PagedDecodeFp8_0
            })
        }),
{
    let prefill = LayerCall {
        phase: Gemma4Phase::Prefill { cu_seqlens_q, max_seqlen_q: 1, num_seqs: 1 },
        ..call
    };
    assert(!prefill.takes_unified());
    assert(prefill.per_qi_ops(cu_seqlens_q).len() == 2);
    assert(0 * (prefill.dims.q_dim() * 2) == 0 && 0 * prefill.dims.q_dim() == 0 && 0 * (
    prefill.dims.num_heads * 4) == 0);
}

} // verus!
