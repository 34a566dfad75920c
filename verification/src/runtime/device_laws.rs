//! Every plan of a layer computes the layer: a device that performs it gets
//! through, and its residual ends as that of the whole layer.

use crate::attention::prefill::{total_q_blocks, unified_outcome};
use crate::cutlass::lib_so::CutlassBackend;
use crate::fused::launch_raw::KernelArgs;
use crate::runtime::device_model::{
    activation_of, before_layer, half_at, normed, perform, perform_all, projection_of,
    quantized_at, residual_at, shaped, weights_of, wide_at, Activation, Content, Device, Missing,
    Projection,
};
use crate::runtime::gemma4_layer_exec::{
    channelscale_fits, channelscale_run, lt_gemm, round_up_16, scale_cast_ops, takes_blockwise,
    widths_are_ordered, ChannelscaleGemm, Gemma4LayerDims, Gemma4LayerType, Gemma4Phase,
    LayerCall, SfBytes,
};
use crate::runtime::layer_ops::{LayerOp, Run};
use vstd::prelude::*;

verus! {

/// The buffers of a layer that one operation writes and a later one reads.
pub open spec fn buffers(call: LayerCall) -> Seq<u64> {
    let s = call.scratch;
    seq![
        call.residual,
        s.hidden_fp8,
        s.hidden_scale,
        s.q_out,
        s.q_normed,
        s.k_normed,
        s.v_normed,
        s.q_fp8,
        s.k_cache,
        s.v_cache,
        s.attn_out,
        s.attn_out_fp8,
        s.attn_out_scale,
        s.delta_f16,
        s.gate_up_out,
        s.gate_up_fp8,
        s.mlp_out_fp8,
        s.mlp_out_scale,
        s.gemm_f32_tmp,
    ]
}

/// Where the scratch of a staged projection starts.
pub open spec fn staged(call: LayerCall) -> u64 {
    (call.scratch.gemm_f32_tmp + call.dims.num_tokens * call.dims.hidden * 2) as u64
}

/// Where the weight scales are laid out, behind the activation scales.
pub open spec fn behind(base: u64, sf: SfBytes) -> u64 {
    (base + round_up_16(sf.sfa as int)) as u64
}

/// The buffers of a layer are different, and neither its staging area nor the
/// room for laid-out scales nor the uploaded context lengths lie on one of them.
pub open spec fn apart(call: LayerCall) -> bool {
    &&& forall|i: int, j: int|
        0 <= i < j < 19 ==> (#[trigger] buffers(call)[i]) != (#[trigger] buffers(call)[j])
    &&& !buffers(call).contains(staged(call))
    &&& !buffers(call).contains(behind(call.scratch.gemm_f32_tmp, call.sf.qkv))
    &&& !buffers(call).contains(behind(call.scratch.gemm_f32_tmp, call.sf.gate_up))
    &&& !buffers(call).contains(behind(staged(call), call.sf.o))
    &&& !buffers(call).contains(behind(staged(call), call.sf.down))
    &&& call.phase matches Gemma4Phase::Prefill { cu_seqlens_q, .. } ==> !buffers(call).contains(
        cu_seqlens_q,
    )
}

/// Counts that the kernels take as signed numbers are such numbers.
pub open spec fn representable(dims: Gemma4LayerDims) -> bool {
    &&& 0 < dims.num_tokens <= i32::MAX
    &&& dims.hidden <= i32::MAX
    &&& 2 * dims.intermediate <= i32::MAX
    &&& dims.num_heads <= i32::MAX
    &&& dims.num_kv_heads <= i32::MAX
    &&& dims.head_dim <= i32::MAX
    &&& dims.rotary_dim <= i32::MAX
    &&& dims.sliding_window <= i32::MAX
    &&& (dims.num_heads + 2 * dims.num_kv_heads) * dims.head_dim <= i32::MAX
}

proof fn listed(call: LayerCall, i: int)
    requires
        0 <= i < 19,
    ensures
        buffers(call).contains(buffers(call)[i]),
{
}

/// Two buffers of the list differ, and differ from what is on none of them.
proof fn differ(call: LayerCall, i: int, j: int)
    requires
        apart(call),
        0 <= i < 19,
        0 <= j < 19,
        i != j,
    ensures
        buffers(call)[i] != buffers(call)[j],
{
    if i > j {
        assert(buffers(call)[j] != buffers(call)[i]);
    }
}

/// An operation behind a list.
pub open spec fn then(call: LayerCall, d: Option<Device>, op: LayerOp) -> Option<Device> {
    match d {
        Some(e) => perform(call, e, op),
        None => None,
    }
}

proof fn one_more(call: LayerCall, d: Device, ops: Seq<LayerOp>, op: LayerOp)
    ensures
        perform_all(call, d, ops.push(op)) == then(call, perform_all(call, d, ops), op),
{
    assert(ops.push(op).drop_last() =~= ops);
}

proof fn none(call: LayerCall, d: Device)
    ensures
        perform_all(call, d, Seq::empty()) == Some(d),
{
}

proof fn one(call: LayerCall, d: Device, x: LayerOp)
    ensures
        perform_all(call, d, seq![x]) == perform(call, d, x),
{
    one_more(call, d, Seq::empty(), x);
    assert(seq![x] =~= Seq::empty().push(x));
}

proof fn two(call: LayerCall, d: Device, x: LayerOp, y: LayerOp)
    ensures
        perform_all(call, d, seq![x, y]) == then(call, perform(call, d, x), y),
{
    one(call, d, x);
    one_more(call, d, seq![x], y);
    assert(seq![x, y] =~= seq![x].push(y));
}

proof fn three(call: LayerCall, d: Device, x: LayerOp, y: LayerOp, z: LayerOp)
    ensures
        perform_all(call, d, seq![x, y, z]) == then(
            call,
            then(call, perform(call, d, x), y),
            z,
        ),
{
    two(call, d, x, y);
    one_more(call, d, seq![x, y], z);
    assert(seq![x, y, z] =~= seq![x, y].push(z));
}

/// A list and then another is performed as one list.
pub proof fn lists_are_performed_in_turn(
    call: LayerCall,
    d: Device,
    a: Seq<LayerOp>,
    b: Seq<LayerOp>,
)
    ensures
        perform_all(call, d, a + b) == match perform_all(call, d, a) {
            Some(e) => perform_all(call, e, b),
            None => None,
        },
    decreases b.len(),
{
    if b.len() == 0 {
        assert(a + b =~= a);
    } else {
        lists_are_performed_in_turn(call, d, a, b.drop_last());
        assert((a + b).drop_last() =~= a + b.drop_last());
        assert((a + b).last() == b.last());
    }
}

/// The residual is as it was, and so is the count of attended tokens.
pub open spec fn keeps(call: LayerCall, d: Device, e: Device) -> bool {
    &&& d.mem.contains_key(call.residual)
    &&& e.mem.contains_key(call.residual)
    &&& e.mem[call.residual] == d.mem[call.residual]
    &&& e.attended == d.attended
}

/// The operands of a projection with token and channel scales are those of the
/// layer.
pub open spec fn right_gemm(call: LayerCall, p: Projection, g: ChannelscaleGemm) -> bool {
    let w = weights_of(call, p);
    &&& shaped(call, p, g.m as int, g.n as int, g.k as int)
    &&& g.b_fp8 == w.fp8
    &&& g.b_chscale == w.chscale
    &&& g.b_blockscale == w.blockscale
    &&& g.b_scale_scalar == w.scale
    &&& g.cutlass_workspace == call.scratch.cutlass_workspace
    &&& g.cutlass_workspace_bytes == call.scratch.cutlass_workspace_bytes
}

proof fn names_differ()
    ensures
        "prep_sfa_sm120"@ != "prep_sfb_sm120"@,
{
    reveal_strlit("prep_sfa_sm120");
    reveal_strlit("prep_sfb_sm120");
    assert("prep_sfa_sm120"@[7] == 'a');
    assert("prep_sfb_sm120"@[7] == 'b');
}

proof fn blocks_cover(total: int)
    requires
        0 <= total,
    ensures
        (total + 255) / 256 * 256 >= total,
{
}

proof fn scale_cast_computes(call: LayerCall, d: Device, p: Projection, g: ChannelscaleGemm)
    requires
        right_gemm(call, p, g),
        g.b_chscale != 0,
        d.holds(g.a_fp8, Content::Quantized(activation_of(p))),
        d.holds(g.a_scale, Content::TokenScales(activation_of(p))),
        d.mem.contains_key(call.residual),
        g.scratch_f32 != g.a_scale,
        g.scratch_f32 != call.residual,
        g.output_f16 != call.residual,
        i32::MIN <= g.m * g.n <= i32::MAX,
        (g.m as u32) * (g.n as u32) + 255 <= u32::MAX,
        g.m > 0,
        g.n >= 0,
    ensures
        perform_all(call, d, scale_cast_ops(*call.kernels, g, call.stream)) matches Some(e) && {
            &&& e.holds(g.output_f16, Content::Product(p))
            &&& keeps(call, d, e)
        },
{
    let ops = scale_cast_ops(*call.kernels, g, call.stream);
    let a = activation_of(p);
    assert(projection_of(a) == p);
    let multiply = LayerOp::Fp8GemmF32(lt_gemm(g, g.scratch_f32));
    assert(g.m * g.n >= 0) by (nonlinear_arith)
        requires
            g.m > 0,
            g.n >= 0,
    ;
    blocks_cover(g.m * g.n);
    let d1 = perform(call, d, multiply)->0;
    assert(perform(call, d, multiply) == Some(d1));
    let cast = ops.last();
    assert((g.m as u32) as i32 == g.m && (g.n as u32) as i32 == g.n);
    if g.m > 1 {
        let rows = ops[1];
        let cols = ops[2];
        let d2 = perform(call, d1, rows)->0;
        assert(wide_at(d1, g.scratch_f32) == Some((p, Missing::RowsAndCols)));
        assert(perform(call, d1, rows) == Some(d2));
        let d3 = perform(call, d2, cols)->0;
        assert(wide_at(d2, g.scratch_f32) == Some((p, Missing::Cols)));
        assert(perform(call, d2, cols) == Some(d3));
        let d4 = perform(call, d3, cast)->0;
        assert(wide_at(d3, g.scratch_f32) == Some((p, Missing::Nothing)));
        assert(perform(call, d3, cast) == Some(d4));
        three(call, d, multiply, rows, cols);
        one_more(call, d, seq![multiply, rows, cols], cast);
        assert(ops =~= seq![multiply, rows, cols].push(cast));
    } else {
        let cols = ops[1];
        assert(wide_at(d1, g.scratch_f32) == Some((p, Missing::Cols)));
        let d3 = perform(call, d1, cols)->0;
        assert(perform(call, d1, cols) == Some(d3));
        let d4 = perform(call, d3, cast)->0;
        assert(wide_at(d3, g.scratch_f32) == Some((p, Missing::Nothing)));
        assert(perform(call, d3, cast) == Some(d4));
        three(call, d, multiply, cols, cast);
        assert(ops =~= seq![multiply, cols, cast]);
    }
}

/// On every path, a multiplication with token and channel scales gives the whole
/// product.
proof fn channelscale_computes(
    call: LayerCall,
    d: Device,
    p: Projection,
    g: ChannelscaleGemm,
    enabled: bool,
    sf: SfBytes,
)
    requires
        right_gemm(call, p, g),
        channelscale_fits(*call.cutlass, g, enabled, sf),
        channelscale_run(*call.cutlass, *call.kernels, g, enabled, sf, call.stream).end is Ok,
        g.b_chscale != 0,
        g.m > 0,
        g.n >= 0,
        d.holds(g.a_fp8, Content::Quantized(activation_of(p))),
        d.holds(g.a_scale, Content::TokenScales(activation_of(p))),
        d.mem.contains_key(call.residual),
        g.scratch_f32 != g.a_fp8,
        g.scratch_f32 != g.a_scale,
        g.scratch_f32 != call.residual,
        behind(g.scratch_f32, sf) != g.a_fp8,
        behind(g.scratch_f32, sf) != call.residual,
        g.output_f16 != call.residual,
    ensures
        perform_all(
            call,
            d,
            channelscale_run(*call.cutlass, *call.kernels, g, enabled, sf, call.stream).ops,
        ) matches Some(e) && {
            &&& e.holds(g.output_f16, Content::Product(p))
            &&& keeps(call, d, e)
        },
{
    let run = channelscale_run(*call.cutlass, *call.kernels, g, enabled, sf, call.stream);
    let a = activation_of(p);
    assert(projection_of(a) == p);
    if takes_blockwise(*call.cutlass, g, enabled, sf) {
        names_differ();
        assert(run.ops.len() == 3);
        let x = run.ops[0];
        let y = run.ops[1];
        let z = run.ops[2];
        assert(run.ops =~= seq![x, y, z]);
        three(call, d, x, y, z);
        let d1 = perform(call, d, x)->0;
        assert(perform(call, d, x) == Some(d1));
        assert(d1.holds(g.scratch_f32, Content::LaidOutTokenScales(a)));
        let d2 = perform(call, d1, y)->0;
        assert(perform(call, d1, y) == Some(d2));
        assert(behind(g.scratch_f32, sf) != g.scratch_f32);
        assert(quantized_at(d2, g.a_fp8) == Some(a));
        let d3 = perform(call, d2, z)->0;
        assert(perform(call, d2, z) == Some(d3));
    } else if *call.cutlass is So {
        assert(run.ops.len() == 1);
        let x = run.ops[0];
        assert(run.ops =~= seq![x]);
        one(call, d, x);
        assert(quantized_at(d, g.a_fp8) == Some(a));
        assert(perform(call, d, x) is Some);
    } else {
        scale_cast_computes(call, d, p, g);
    }
}

/// A norm of the residual into a buffer of its own.
proof fn norm_f16_computes(call: LayerCall, d: Device, dst: u64, gamma: u64, a: Activation)
    requires
        d.mem.contains_key(call.residual),
        normed(call, residual_at(call, d), gamma) == Some(a),
        dst != call.residual,
        call.dims.num_tokens * call.dims.hidden * 2 <= u32::MAX,
    ensures
        perform_all(call, d, call.norm_f16(dst, gamma)) matches Some(e) && {
            &&& e == d.put(dst, Content::Residual(residual_at(call, d))).put(
                dst,
                Content::Half(a),
            )
            &&& e.holds(dst, Content::Half(a))
            &&& keeps(call, d, e)
        },
{
    let x = call.norm_f16(dst, gamma)[0];
    let y = call.norm_f16(dst, gamma)[1];
    assert(call.norm_f16(dst, gamma) =~= seq![x, y]);
    assert(call.dims.num_tokens * call.dims.hidden >= 0) by (nonlinear_arith)
        requires
            call.dims.num_tokens >= 0,
            call.dims.hidden >= 0,
    ;
    two(call, d, x, y);
}

/// Whether the FP8 hidden state holds the activation.
pub open spec fn hidden_is(call: LayerCall, d: Device, a: Activation) -> bool {
    d.holds(call.scratch.hidden_fp8, Content::Quantized(a)) && d.holds(
        call.scratch.hidden_scale,
        Content::TokenScales(a),
    )
}

/// Which residual a device holds.
pub open spec fn at_residual(call: LayerCall, d: Device, i: int) -> bool {
    d.holds(call.residual, Content::Residual(i))
}

proof fn input_is_normed(call: LayerCall, d: Device)
    requires
        apart(call),
        at_residual(call, d, 0),
    ensures
        perform_all(call, d, call.attn_input_ops()) matches Some(e) && {
            &&& keeps(call, d, e)
            &&& !call.skips_attn_quant() ==> hidden_is(call, e, Activation::AttnNormed)
        },
{
    differ(call, 0, 1);
    differ(call, 0, 2);
    differ(call, 1, 2);
    if call.skips_attn_quant() {
        none(call, d);
    } else {
        let x = call.norm_quant(call.weights.attn_norm_gamma);
        one(call, d, x);
        assert(normed(call, residual_at(call, d), call.weights.attn_norm_gamma) == Some(
            Activation::AttnNormed,
        ));
    }
}

proof fn ff_input_is_normed(call: LayerCall, d: Device)
    requires
        apart(call),
        at_residual(call, d, 1),
    ensures
        perform_all(call, d, call.ff_input_ops()) matches Some(e) && {
            &&& keeps(call, d, e)
            &&& !call.skips_ff_quant() ==> hidden_is(call, e, Activation::FfNormed)
        },
{
    differ(call, 0, 1);
    differ(call, 0, 2);
    differ(call, 1, 2);
    if call.skips_ff_quant() {
        none(call, d);
    } else {
        let x = call.norm_quant(call.weights.pre_ff_norm_gamma);
        one(call, d, x);
        assert(normed(call, residual_at(call, d), call.weights.pre_ff_norm_gamma) == Some(
            Activation::FfNormed,
        ));
    }
}

proof fn qkv_computes(call: LayerCall, d: Device)
    requires
        call.build is Cuda,
        apart(call),
        representable(call.dims),
        call.qkv_fits(),
        call.qkv_run().end is Ok,
        at_residual(call, d, 0),
        !call.skips_attn_quant() ==> hidden_is(call, d, Activation::AttnNormed),
    ensures
        perform_all(call, d, call.qkv_run().ops) matches Some(e) && {
            &&& keeps(call, d, e)
            &&& e.holds(call.scratch.q_out, Content::Product(Projection::Qkv))
        },
{
    let w = call.weights;
    let s = call.scratch;
    let p = Projection::Qkv;
    let a = Activation::AttnNormed;
    widths_are_ordered(call.dims);
    differ(call, 0, 13);
    differ(call, 0, 18);
    differ(call, 0, 3);
    differ(call, 0, 1);
    differ(call, 18, 1);
    differ(call, 18, 2);
    let ops = call.qkv_run().ops;
    if w.qkv_f16 != 0 || call.qkv_is_fast() {
        let head = call.norm_f16(s.delta_f16, w.attn_norm_gamma);
        norm_f16_computes(call, d, s.delta_f16, w.attn_norm_gamma, a);
        let d1 = perform_all(call, d, head)->0;
        assert(half_at(d1, s.delta_f16) == Some(a));
        if w.qkv_f16 != 0 {
            let x = ops[2];
            let y = ops[3];
            assert(ops =~= head + seq![x, y]);
            lists_are_performed_in_turn(call, d, head, seq![x, y]);
            two(call, d1, x, y);
            let d2 = perform(call, d1, x)->0;
            assert(perform(call, d1, x) == Some(d2));
            assert(wide_at(d2, s.gemm_f32_tmp) == Some((p, Missing::Nothing)));
            assert(call.dims.num_tokens * call.dims.qkv_rows() >= 0) by (nonlinear_arith)
                requires
                    call.dims.num_tokens >= 0,
                    call.dims.qkv_rows() >= 0,
            ;
            assert(perform(call, d2, y) is Some);
        } else {
            let x = ops[2];
            assert(ops =~= head + seq![x]);
            lists_are_performed_in_turn(call, d, head, seq![x]);
            one(call, d1, x);
            assert(perform(call, d1, x) is Some);
        }
    } else if w.qkv_chscale != 0 {
        listed(call, 0);
        listed(call, 1);
        channelscale_computes(
            call,
            d,
            p,
            call.qkv_gemm(),
            call.env.blockwise_enabled(),
            call.sf.qkv,
        );
    } else {
        let x = ops[0];
        assert(ops =~= seq![x]);
        one(call, d, x);
        assert(quantized_at(d, s.hidden_fp8) == Some(a));
        assert(perform(call, d, x) is Some);
    }
}

proof fn gate_up_computes(call: LayerCall, d: Device)
    requires
        call.build is Cuda,
        apart(call),
        representable(call.dims),
        call.gate_up_fits(),
        call.gate_up_run().end is Ok,
        at_residual(call, d, 1),
        !call.skips_ff_quant() ==> hidden_is(call, d, Activation::FfNormed),
    ensures
        perform_all(call, d, call.gate_up_run().ops) matches Some(e) && {
            &&& keeps(call, d, e)
            &&& e.holds(call.scratch.gate_up_out, Content::Product(Projection::GateUp))
        },
{
    let w = call.weights;
    let s = call.scratch;
    let p = Projection::GateUp;
    let a = Activation::FfNormed;
    differ(call, 0, 13);
    differ(call, 0, 18);
    differ(call, 0, 14);
    differ(call, 0, 1);
    differ(call, 18, 1);
    differ(call, 18, 2);
    differ(call, 18, 14);
    let ops = call.gate_up_run().ops;
    if w.gate_up_f16 != 0 {
        let head = call.norm_f16(s.gate_up_out, w.pre_ff_norm_gamma);
        norm_f16_computes(call, d, s.gate_up_out, w.pre_ff_norm_gamma, a);
        let d1 = perform_all(call, d, head)->0;
        assert(half_at(d1, s.gate_up_out) == Some(a));
        let x = ops[2];
        let y = ops[3];
        assert(ops =~= head + seq![x, y]);
        lists_are_performed_in_turn(call, d, head, seq![x, y]);
        two(call, d1, x, y);
        let d2 = perform(call, d1, x)->0;
        assert(perform(call, d1, x) == Some(d2));
        assert(wide_at(d2, s.gemm_f32_tmp) == Some((p, Missing::Nothing)));
        let t = call.dims.num_tokens as int;
        let i = call.dims.intermediate as int;
        assert(t * 2 * i == t * (2 * i) && t * (2 * i) >= 0) by (nonlinear_arith)
            requires
                t >= 0,
                i >= 0,
        ;
        assert(perform(call, d2, y) is Some);
    } else if call.gate_up_is_fast() {
        let head = call.norm_f16(s.delta_f16, w.pre_ff_norm_gamma);
        norm_f16_computes(call, d, s.delta_f16, w.pre_ff_norm_gamma, a);
        let d1 = perform_all(call, d, head)->0;
        assert(half_at(d1, s.delta_f16) == Some(a));
        let x = ops[2];
        assert(ops =~= head + seq![x]);
        lists_are_performed_in_turn(call, d, head, seq![x]);
        one(call, d1, x);
        assert(perform(call, d1, x) is Some);
    } else if w.gate_up_chscale != 0 {
        listed(call, 0);
        listed(call, 1);
        channelscale_computes(
            call,
            d,
            p,
            call.gate_up_gemm(),
            call.env.blockwise_enabled(),
            call.sf.gate_up,
        );
    } else {
        let x = ops[0];
        assert(ops =~= seq![x]);
        one(call, d, x);
        assert(quantized_at(d, s.hidden_fp8) == Some(a));
        assert(perform(call, d, x) is Some);
    }
}

proof fn heads_are_normed(call: LayerCall, d: Device)
    requires
        apart(call),
        representable(call.dims),
        d.mem.contains_key(call.residual),
        d.holds(call.scratch.q_out, Content::Product(Projection::Qkv)),
    ensures
        perform(call, d, call.qkv_norm_op()) matches Some(e) && {
            &&& keeps(call, d, e)
            &&& e.holds(call.scratch.q_normed, Content::NormedQueries)
            &&& e.holds(call.scratch.k_normed, Content::NormedKeys)
            &&& e.holds(call.scratch.v_normed, Content::NormedValues)
        },
{
    widths_are_ordered(call.dims);
    differ(call, 0, 4);
    differ(call, 0, 5);
    differ(call, 0, 6);
    differ(call, 4, 5);
    differ(call, 4, 6);
    differ(call, 5, 6);
}

proof fn output_is_quantized(call: LayerCall, d: Device)
    requires
        call.build is Cuda,
        apart(call),
        representable(call.dims),
        d.mem.contains_key(call.residual),
        d.holds(call.scratch.attn_out, Content::Half(Activation::AttnOut)),
    ensures
        perform_all(call, d, call.o_quant_ops()) matches Some(e) && {
            &&& keeps(call, d, e)
            &&& e.holds(call.scratch.attn_out, Content::Half(Activation::AttnOut))
            &&& call.weights.o_f16 == 0 && !call.skips_o_quant() ==> e.holds(
                call.scratch.attn_out_fp8,
                Content::Quantized(Activation::AttnOut),
            ) && e.holds(call.scratch.attn_out_scale, Content::TokenScales(Activation::AttnOut))
        },
{
    widths_are_ordered(call.dims);
    differ(call, 0, 11);
    differ(call, 0, 12);
    differ(call, 10, 11);
    differ(call, 10, 12);
    differ(call, 11, 12);
    if call.o_quant_ops().len() == 0 {
        none(call, d);
    } else {
        let x = call.o_quant_ops()[0];
        assert(call.o_quant_ops() =~= seq![x]);
        one(call, d, x);
    }
}

proof fn o_computes(call: LayerCall, d: Device)
    requires
        call.build is Cuda,
        apart(call),
        representable(call.dims),
        call.o_fits(),
        call.o_run().end is Ok,
        at_residual(call, d, 0),
        d.holds(call.scratch.attn_out, Content::Half(Activation::AttnOut)),
        call.weights.o_f16 == 0 && !call.skips_o_quant() ==> d.holds(
            call.scratch.attn_out_fp8,
            Content::Quantized(Activation::AttnOut),
        ) && d.holds(call.scratch.attn_out_scale, Content::TokenScales(Activation::AttnOut)),
    ensures
        perform_all(call, d, call.o_run().ops) matches Some(e) && at_residual(call, e, 1),
{
    let w = call.weights;
    let s = call.scratch;
    let p = Projection::O;
    let a = Activation::AttnOut;
    widths_are_ordered(call.dims);
    differ(call, 0, 18);
    differ(call, 0, 11);
    let ops = call.o_run().ops;
    assert(half_at(d, s.attn_out) == Some(a));
    if w.o_f16 != 0 || call.o_is_fast() || w.o_chscale == 0 {
        let x = ops[0];
        let y = ops[1];
        assert(ops =~= seq![x, y]);
        two(call, d, x, y);
        if w.o_f16 == 0 && !call.o_is_fast() {
            assert(quantized_at(d, s.attn_out_fp8) == Some(a));
        }
        let d1 = perform(call, d, x)->0;
        assert(perform(call, d, x) == Some(d1));
        assert(residual_at(call, d1) == 0);
        if w.o_f16 == 0 && call.o_is_fast() {
            assert(d1.holds(s.gemm_f32_tmp, Content::Product(p)));
        } else {
            assert(wide_at(d1, s.gemm_f32_tmp) == Some((p, Missing::Nothing)));
        }
        assert(perform(call, d1, y) is Some);
    } else {
        listed(call, 0);
        listed(call, 11);
        listed(call, 12);
        let g = call.o_gemm();
        assert(g.scratch_f32 == staged(call));
        let product = channelscale_run(
            *call.cutlass,
            *call.kernels,
            g,
            call.env.blockwise_enabled(),
            call.sf.o,
            call.stream,
        );
        channelscale_computes(call, d, p, g, call.env.blockwise_enabled(), call.sf.o);
        let d1 = perform_all(call, d, product.ops)->0;
        let y = call.norm_add_f16in(w.post_attn_norm_gamma, 0);
        assert(ops =~= product.ops + seq![y]);
        lists_are_performed_in_turn(call, d, product.ops, seq![y]);
        one(call, d1, y);
        assert(residual_at(call, d1) == 0);
        assert(perform(call, d1, y) is Some);
    }
}

proof fn down_computes(call: LayerCall, d: Device)
    requires
        call.build is Cuda,
        apart(call),
        representable(call.dims),
        call.down_fits(),
        call.down_run().end is Ok,
        at_residual(call, d, 1),
        d.holds(call.scratch.gate_up_out, Content::Product(Projection::GateUp)),
    ensures
        perform_all(call, d, call.down_run().ops) matches Some(e) && at_residual(call, e, 2),
{
    let w = call.weights;
    let s = call.scratch;
    let p = Projection::Down;
    let a = Activation::Gelu;
    differ(call, 0, 18);
    differ(call, 0, 15);
    differ(call, 0, 16);
    differ(call, 0, 17);
    differ(call, 14, 15);
    differ(call, 16, 17);
    let ops = call.down_run().ops;
    let x = ops[0];
    let d1 = perform(call, d, x)->0;
    if w.down_f16 != 0 || call.down_is_fast() || w.down_chscale == 0 {
        let y = ops[1];
        let z = ops[2];
        assert(ops =~= seq![x, y, z]);
        three(call, d, x, y, z);
        assert(perform(call, d, x) == Some(d1));
        if w.down_f16 != 0 || call.down_is_fast() {
            assert(half_at(d1, s.gate_up_fp8) == Some(a));
        } else {
            assert(quantized_at(d1, s.mlp_out_fp8) == Some(a));
        }
        let d2 = perform(call, d1, y)->0;
        assert(perform(call, d1, y) == Some(d2));
        assert(residual_at(call, d2) == 1);
        if w.down_f16 == 0 && call.down_is_fast() {
            assert(d2.holds(s.gemm_f32_tmp, Content::Product(p)));
        } else {
            assert(wide_at(d2, s.gemm_f32_tmp) == Some((p, Missing::Nothing)));
        }
        assert(perform(call, d2, z) is Some);
    } else {
        listed(call, 0);
        listed(call, 16);
        listed(call, 17);
        let g = call.down_gemm();
        assert(g.scratch_f32 == staged(call));
        let product = channelscale_run(
            *call.cutlass,
            *call.kernels,
            g,
            call.env.blockwise_enabled(),
            call.sf.down,
            call.stream,
        );
        assert(x == call.gelu_fp8_op());
        assert(perform(call, d, x) == Some(d1));
        channelscale_computes(call, d1, p, g, call.env.blockwise_enabled(), call.sf.down);
        let d2 = perform_all(call, d1, product.ops)->0;
        let z = call.norm_add_f16in(w.post_ff_norm_gamma, w.layer_scalar_ptr);
        assert(ops =~= (seq![x] + product.ops) + seq![z]);
        one(call, d, x);
        lists_are_performed_in_turn(call, d, seq![x], product.ops);
        lists_are_performed_in_turn(call, d, seq![x] + product.ops, seq![z]);
        one(call, d2, z);
        assert(residual_at(call, d2) == 1);
        assert(perform(call, d2, z) is Some);
    }
}

/// Queries and caches hold what RoPE writes into them.
pub open spec fn roped(call: LayerCall, d: Device) -> bool {
    let s = call.scratch;
    d.holds(s.q_fp8, Content::Queries) && d.holds(s.k_cache, Content::KeyCache) && d.holds(
        s.v_cache,
        Content::ValueCache,
    )
}

pub open spec fn heads_normed(call: LayerCall, d: Device) -> bool {
    let s = call.scratch;
    d.holds(s.q_normed, Content::NormedQueries) && d.holds(s.k_normed, Content::NormedKeys)
        && d.holds(s.v_normed, Content::NormedValues)
}

proof fn rope_computes(call: LayerCall, d: Device)
    requires
        apart(call),
        d.mem.contains_key(call.residual),
        heads_normed(call, d),
    ensures
        perform(
            call,
            d,
            crate::runtime::gemma4_layer_exec::rope_fp8kv_op(
                call.dims,
                *call.kernels,
                *call.scratch,
                *call.meta,
            ),
        ) matches Some(e) && {
            &&& keeps(call, d, e)
            &&& roped(call, e)
        },
{
    differ(call, 0, 7);
    differ(call, 0, 8);
    differ(call, 0, 9);
    differ(call, 7, 8);
    differ(call, 7, 9);
    differ(call, 8, 9);
}

proof fn decode_computes(call: LayerCall, d: Device)
    requires
        call.build is Cuda,
        call.phase is Decode,
        apart(call),
        representable(call.dims),
        at_residual(call, d, 0),
        heads_normed(call, d),
    ensures
        perform_all(call, d, call.decode_ops()) matches Some(e) && {
            &&& at_residual(call, e, 0)
            &&& e.holds(call.scratch.attn_out, Content::Half(Activation::AttnOut))
        },
{
    let ops = call.decode_ops();
    let x = ops[0];
    let y = ops[1];
    assert(ops =~= seq![x, y]);
    two(call, d, x, y);
    differ(call, 0, 10);
    if call.dims.f16_kv {
        differ(call, 0, 4);
        differ(call, 0, 8);
        differ(call, 0, 9);
        differ(call, 4, 8);
        differ(call, 4, 9);
        differ(call, 8, 9);
        let d1 = perform(call, d, x)->0;
        assert(perform(call, d, x) == Some(d1));
        assert(perform(call, d1, y) is Some);
    } else {
        rope_computes(call, d);
        let d1 = perform(call, d, x)->0;
        assert(perform(call, d1, y) is Some);
    }
}

proof fn unified_computes(call: LayerCall, d: Device, cu_seqlens_q: u64)
    requires
        call.build is Cuda,
        call.phase matches Gemma4Phase::Prefill { cu_seqlens_q: c, .. } && c == cu_seqlens_q,
        call.takes_unified(),
        call.attention_fits(),
        call.unified_run(cu_seqlens_q).end is Ok,
        apart(call),
        representable(call.dims),
        at_residual(call, d, 0),
        roped(call, d),
    ensures
        perform_all(call, d, call.unified_run(cu_seqlens_q).ops) matches Some(e) && {
            &&& at_residual(call, e, 0)
            &&& e.holds(call.scratch.attn_out, Content::Half(Activation::AttnOut))
        },
{
    differ(call, 0, 10);
    let ops = call.unified_run(cu_seqlens_q).ops;
    let x = ops[0];
    assert(ops =~= seq![x]);
    one(call, d, x);
    let t = call.dims.num_tokens as int;
    let b = call.unified_params().block_q as int;
    let blocks = total_q_blocks(t, b, 1);
    assert(blocks == (t + b - 1) / b + 1);
    assert(b * blocks >= t && blocks >= 0) by (nonlinear_arith)
        requires
            b > 0,
            t > 0,
            blocks == (t + b - 1) / b + 1,
    ;
    assert(b <= 16) by {
        let per_kv = call.unified_params().num_queries_per_kv as int;
        let q = if per_kv >= 1 {
            per_kv
        } else {
            1
        };
        assert(16int / q <= 16) by (nonlinear_arith)
            requires
                q >= 1,
        ;
    }
    assert(x is UnifiedPrefill);
    assert(perform(call, d, x) is Some);
}

proof fn counted_decodes_compute(call: LayerCall, d: Device, cu_seqlens_q: u64, n: int)
    requires
        call.build is Cuda,
        call.phase matches Gemma4Phase::Prefill { cu_seqlens_q: c, .. } && c == cu_seqlens_q,
        !call.takes_unified(),
        call.attention_fits(),
        apart(call),
        representable(call.dims),
        at_residual(call, d, 0),
        roped(call, d),
        d.attended == 0,
        d.holds(cu_seqlens_q, Content::Counting(call.dims.num_tokens as int)),
        0 <= n <= call.dims.num_tokens,
    ensures
        perform_all(
            call,
            d,
            Seq::new(n as nat, |qi: int| call.decode_qi_op(cu_seqlens_q, qi)),
        ) matches Some(e) && {
            &&& e.attended == n
            &&& at_residual(call, e, 0)
            &&& n < call.dims.num_tokens ==> e.mem == d.mem
            &&& n == call.dims.num_tokens ==> e.holds(
                call.scratch.attn_out,
                Content::Half(Activation::AttnOut),
            )
        },
    decreases n,
{
    let ops = Seq::new(n as nat, |qi: int| call.decode_qi_op(cu_seqlens_q, qi));
    if n == 0 {
        none(call, d);
        assert(ops =~= Seq::empty());
    } else {
        let before = Seq::new((n - 1) as nat, |qi: int| call.decode_qi_op(cu_seqlens_q, qi));
        counted_decodes_compute(call, d, cu_seqlens_q, n - 1);
        let e = perform_all(call, d, before)->0;
        let x = call.decode_qi_op(cu_seqlens_q, n - 1);
        assert(ops =~= before.push(x));
        one_more(call, d, before, x);
        differ(call, 0, 10);
        let t = n - 1;
        let last = call.dims.num_tokens - 1;
        let width = call.dims.q_dim();
        let heads = call.dims.num_heads as int;
        widths_are_ordered(call.dims);
        assert(t * (width * 2) == 2 * (t * width) && 0 <= t * width <= last * width && last * (
        width * 2) == 2 * (last * width)) by (nonlinear_arith)
            requires
                0 <= t <= last,
                width >= 0,
        ;
        assert(t * (heads * 4) == 4 * (t * heads) && 0 <= t * heads <= last * heads && last * (heads
            * 4) == 4 * (last * heads)) by (nonlinear_arith)
            requires
                0 <= t <= last,
                heads >= 0,
        ;
        assert(perform(call, e, x) is Some);
    }
}

proof fn attention_computes(call: LayerCall, d: Device)
    requires
        call.build is Cuda,
        apart(call),
        representable(call.dims),
        call.attention_fits(),
        call.attention_run().end is Ok,
        at_residual(call, d, 0),
        d.attended == 0,
        heads_normed(call, d),
    ensures
        perform_all(call, d, call.attention_run().ops) matches Some(e) && {
            &&& at_residual(call, e, 0)
            &&& e.holds(call.scratch.attn_out, Content::Half(Activation::AttnOut))
        },
{
    match call.phase {
        Gemma4Phase::Decode => decode_computes(call, d),
        Gemma4Phase::Prefill { cu_seqlens_q, .. } => {
            let rope = crate::runtime::gemma4_layer_exec::rope_fp8kv_op(
                call.dims,
                *call.kernels,
                *call.scratch,
                *call.meta,
            );
            rope_computes(call, d);
            one(call, d, rope);
            let d1 = perform(call, d, rope)->0;
            if call.takes_unified() {
                unified_computes(call, d1, cu_seqlens_q);
                let rest = call.unified_run(cu_seqlens_q).ops;
                assert(call.attention_run().ops =~= seq![rope] + rest);
                lists_are_performed_in_turn(call, d, seq![rope], rest);
            } else {
                listed(call, 0);
                listed(call, 7);
                listed(call, 8);
                listed(call, 9);
                let n = call.dims.num_tokens;
                let upload = LayerOp::UploadCounting { dst: cu_seqlens_q, upto: n as i32 };
                let d2 = d1.put(cu_seqlens_q, Content::Counting(n as int));
                one(call, d1, upload);
                assert(perform(call, d1, upload) == Some(d2));
                let decodes = Seq::new(
                    n as nat,
                    |qi: int| call.decode_qi_op(cu_seqlens_q, qi),
                );
                counted_decodes_compute(call, d2, cu_seqlens_q, n as int);
                assert(call.per_qi_ops(cu_seqlens_q) =~= seq![upload] + decodes);
                lists_are_performed_in_turn(call, d1, seq![upload], decodes);
                assert(call.attention_run().ops =~= seq![rope] + call.per_qi_ops(cu_seqlens_q));
                lists_are_performed_in_turn(call, d, seq![rope], call.per_qi_ops(cu_seqlens_q));
            }
        },
    }
}

proof fn attention_half_computes(call: LayerCall, d: Device)
    requires
        call.build is Cuda,
        apart(call),
        representable(call.dims),
        call.sizes_fit(),
        call.attention_half().end is Ok,
        at_residual(call, d, 0),
        d.attended == 0,
    ensures
        perform_all(call, d, call.attention_half().ops) matches Some(e) && at_residual(call, e, 1),
{
    let input = call.attn_input_ops();
    let qkv = call.qkv_run().ops;
    let norm = seq![call.qkv_norm_op()];
    let attend = call.attention_run().ops;
    let quant = call.o_quant_ops();
    let o = call.o_run().ops;
    assert(call.qkv_run().end is Ok && call.attention_run().end is Ok && call.o_run().end is Ok);
    assert(call.attention_half().ops =~= input + qkv + norm + attend + quant + o);
    input_is_normed(call, d);
    let d1 = perform_all(call, d, input)->0;
    lists_are_performed_in_turn(call, d, input, qkv);
    qkv_computes(call, d1);
    let d2 = perform_all(call, d1, qkv)->0;
    lists_are_performed_in_turn(call, d, input + qkv, norm);
    one(call, d2, call.qkv_norm_op());
    heads_are_normed(call, d2);
    let d3 = perform_all(call, d2, norm)->0;
    lists_are_performed_in_turn(call, d, input + qkv + norm, attend);
    attention_computes(call, d3);
    let d4 = perform_all(call, d3, attend)->0;
    lists_are_performed_in_turn(call, d, input + qkv + norm + attend, quant);
    output_is_quantized(call, d4);
    let d5 = perform_all(call, d4, quant)->0;
    lists_are_performed_in_turn(call, d, input + qkv + norm + attend + quant, o);
    o_computes(call, d5);
}

proof fn feedforward_half_computes(call: LayerCall, d: Device)
    requires
        call.build is Cuda,
        apart(call),
        representable(call.dims),
        call.gate_up_fits(),
        call.gate_up_run().end is Ok ==> call.down_fits(),
        call.feedforward_half().end is Ok,
        at_residual(call, d, 1),
    ensures
        perform_all(call, d, call.feedforward_half().ops) matches Some(e) && at_residual(
            call,
            e,
            2,
        ),
{
    let input = call.ff_input_ops();
    let gate_up = call.gate_up_run().ops;
    let down = call.down_run().ops;
    assert(call.gate_up_run().end is Ok && call.down_run().end is Ok);
    assert(call.feedforward_half().ops =~= input + gate_up + down);
    ff_input_is_normed(call, d);
    let d1 = perform_all(call, d, input)->0;
    lists_are_performed_in_turn(call, d, input, gate_up);
    gate_up_computes(call, d1);
    let d2 = perform_all(call, d1, gate_up)->0;
    lists_are_performed_in_turn(call, d, input + gate_up, down);
    down_computes(call, d2);
}

/// Every plan that does not end in an error computes the layer. In whatever
/// format the weights are, whichever kernels and libraries are there, in decode
/// and in prefill: the device performs each operation of the plan in its place,
/// and from the residual of the layer's input it arrives at the residual of the
/// whole layer. So each norm takes the weights of its own name, each projection
/// its own weights and the activation that is meant for it, RoPE comes behind the
/// norms of queries and keys and before attention, and no step is left out.
pub proof fn every_plan_computes_the_layer(call: LayerCall)
    requires
        call.build is Cuda,
        apart(call),
        representable(call.dims),
        call.sizes_fit(),
        call.forward_run().end is Ok,
    ensures
        perform_all(call, before_layer(call), call.forward_run().ops) matches Some(d) && d.holds(
            call.residual,
            Content::Residual(2),
        ),
{
    let d = before_layer(call);
    attention_half_computes(call, d);
    let e = perform_all(call, d, call.attention_half().ops)->0;
    feedforward_half_computes(call, e);
    lists_are_performed_in_turn(
        call,
        d,
        call.attention_half().ops,
        call.feedforward_half().ops,
    );
    assert(call.forward_run().ops =~= call.attention_half().ops + call.feedforward_half().ops);
}

} // verus!
