//! What a device makes of a planned layer.
//!
//! The model knows of each buffer what it holds: the residual, an activation in
//! one of its formats, a product at one of its stages. An operation is performed
//! only where its operands hold what it is meant for and where its weights,
//! shapes and kernel are those of that step of a Gemma 4 layer; then its output
//! holds the step's result. Whatever the weight formats and the kernels, a plan
//! is right if the device gets through it and the residual ends as that of the
//! whole layer.

use crate::cutlass::lib_so::{CutlassBackend, GemmCall, PrepCall};
use crate::fused::launch_raw::{KernelArgs, RawLaunch};
use crate::attention::decode::PagedDecodeParams;
use crate::attention::prefill::UnifiedPrefillLaunch;
use crate::kernels::module::KernelFn;
use crate::runtime::gemma4_layer_exec::{Gemma4LayerType, Gemma4Phase, LayerCall};
use crate::runtime::layer_ops::{
    DecodeF16, DecodeFp8, LayerOp, LtGemm, NormAdd, QkvNorm, Quantize, RopeFp8Kv,
};
use vstd::prelude::*;

verus! {

/// The activations that are multiplied by weights.
pub enum Activation {
    /// The input under its norm.
    AttnNormed,
    /// The output of attention.
    AttnOut,
    /// The residual behind attention, under its norm.
    FfNormed,
    /// GELU of the gating half times the up half.
    Gelu,
}

/// The four projections of a layer.
pub enum Projection {
    Qkv,
    O,
    GateUp,
    Down,
}

/// Which scales a single-precision product still lacks.
pub enum Missing {
    /// Those of the rows, of which the first was applied to all, and those of the
    /// columns.
    RowsAndCols,
    Cols,
    Nothing,
}

/// What a buffer holds.
pub enum Content {
    /// The residual: of the layer's input, behind attention, behind the layer.
    Residual(int),
    /// An activation in half precision.
    Half(Activation),
    /// An activation in FP8.
    Quantized(Activation),
    /// The scales of an FP8 activation, one per token.
    TokenScales(Activation),
    /// Those scales, laid out for the blockwise kernel.
    LaidOutTokenScales(Activation),
    /// Block scales of weights, laid out for the blockwise kernel.
    LaidOutBlockScales { src: u64, outer: int, inner: int },
    /// The product of a projection in half precision.
    Product(Projection),
    /// The product of a projection in single precision.
    WideProduct(Projection, Missing),
    NormedQueries,
    NormedKeys,
    NormedValues,
    /// Queries with their positions.
    Queries,
    KeyCache,
    ValueCache,
    /// The numbers from one on.
    Counting(int),
}

/// The device: what its buffers hold, and of how many tokens of a prompt the
/// attention is done.
pub struct Device {
    pub mem: Map<u64, Content>,
    pub attended: int,
}

impl Device {
    pub open spec fn holds(self, addr: u64, c: Content) -> bool {
        self.mem.contains_key(addr) && self.mem[addr] == c
    }

    pub open spec fn put(self, addr: u64, c: Content) -> Device {
        Device { mem: self.mem.insert(addr, c), ..self }
    }
}

/// The weights of a projection: one of the formats, and the shape.
pub struct Weights {
    pub half: u64,
    pub fp8: u64,
    pub scale: u64,
    pub chscale: u64,
    pub blockscale: u64,
    pub rows: int,
    pub cols: int,
}

/// The projection that an activation is multiplied for.
pub open spec fn projection_of(a: Activation) -> Projection {
    match a {
        Activation::AttnNormed => Projection::Qkv,
        Activation::AttnOut => Projection::O,
        Activation::FfNormed => Projection::GateUp,
        Activation::Gelu => Projection::Down,
    }
}

/// The activation that a projection multiplies.
pub open spec fn activation_of(p: Projection) -> Activation {
    match p {
        Projection::Qkv => Activation::AttnNormed,
        Projection::O => Activation::AttnOut,
        Projection::GateUp => Activation::FfNormed,
        Projection::Down => Activation::Gelu,
    }
}

pub open spec fn weights_of(call: LayerCall, p: Projection) -> Weights {
    let w = call.weights;
    let d = call.dims;
    match p {
        Projection::Qkv => Weights {
            half: w.qkv_f16,
            fp8: w.qkv_fp8,
            scale: w.qkv_scale,
            chscale: w.qkv_chscale,
            blockscale: w.qkv_blockscale,
            rows: (d.num_heads + 2 * d.num_kv_heads) * d.head_dim,
            cols: d.hidden as int,
        },
        Projection::O => Weights {
            half: w.o_f16,
            fp8: w.o_fp8,
            scale: w.o_scale,
            chscale: w.o_chscale,
            blockscale: w.o_blockscale,
            rows: d.hidden as int,
            cols: d.num_heads * d.head_dim,
        },
        Projection::GateUp => Weights {
            half: w.gate_up_f16,
            fp8: w.gate_up_fp8,
            scale: w.gate_up_scale,
            chscale: w.gate_up_chscale,
            blockscale: w.gate_up_blockscale,
            rows: 2 * d.intermediate,
            cols: d.hidden as int,
        },
        Projection::Down => Weights {
            half: w.down_f16,
            fp8: w.down_fp8,
            scale: w.down_scale,
            chscale: w.down_chscale,
            blockscale: w.down_blockscale,
            rows: d.hidden as int,
            cols: d.intermediate as int,
        },
    }
}

/// The activation that a buffer holds in half precision.
pub open spec fn half_at(d: Device, addr: u64) -> Option<Activation> {
    if d.mem.contains_key(addr) {
        match d.mem[addr] {
            Content::Half(a) => Some(a),
            _ => None,
        }
    } else {
        None
    }
}

/// The activation that a buffer holds in FP8.
pub open spec fn quantized_at(d: Device, addr: u64) -> Option<Activation> {
    if d.mem.contains_key(addr) {
        match d.mem[addr] {
            Content::Quantized(a) => Some(a),
            _ => None,
        }
    } else {
        None
    }
}

/// The single-precision product that a buffer holds.
pub open spec fn wide_at(d: Device, addr: u64) -> Option<(Projection, Missing)> {
    if d.mem.contains_key(addr) {
        match d.mem[addr] {
            Content::WideProduct(p, m) => Some((p, m)),
            _ => None,
        }
    } else {
        None
    }
}

/// Which residual the residual buffer holds.
pub open spec fn residual_at(call: LayerCall, d: Device) -> int {
    if d.mem.contains_key(call.residual) {
        match d.mem[call.residual] {
            Content::Residual(i) => i,
            _ => -1,
        }
    } else {
        -1
    }
}

/// The activation that a norm of the residual with these weights gives.
pub open spec fn normed(call: LayerCall, residual: int, gamma: u64) -> Option<Activation> {
    if residual == 0 && gamma == call.weights.attn_norm_gamma {
        Some(Activation::AttnNormed)
    } else if residual == 1 && gamma == call.weights.pre_ff_norm_gamma {
        Some(Activation::FfNormed)
    } else {
        None
    }
}

/// A multiplication has the shape of its projection.
pub open spec fn shaped(call: LayerCall, p: Projection, m: int, n: int, k: int) -> bool {
    m == call.dims.num_tokens && n == weights_of(call, p).rows && k == weights_of(call, p).cols
}

pub open spec fn perform_norm_quant(
    call: LayerCall,
    d: Device,
    q: Quantize,
    gamma: u64,
) -> Option<Device> {
    match normed(call, residual_at(call, d), gamma) {
        Some(a) => if q.input == call.residual && q.kernel == call.kernels.fused_rmsnorm_fp8_quant
            && q.num_tokens == call.dims.num_tokens && q.dim == call.dims.hidden {
            Some(
                d.put(q.out_fp8, Content::Quantized(a)).put(q.out_scale, Content::TokenScales(a)),
            )
        } else {
            None
        },
        None => None,
    }
}

pub open spec fn perform_norm_inplace(
    call: LayerCall,
    d: Device,
    kernel: KernelFn,
    num_tokens: u32,
    hidden: u32,
    data: u64,
    gamma: u64,
) -> Option<Device> {
    if d.mem.contains_key(data) && kernel == call.kernels.fused_rmsnorm && num_tokens
        == call.dims.num_tokens && hidden == call.dims.hidden {
        match d.mem[data] {
            Content::Residual(i) => match normed(call, i, gamma) {
                Some(a) => Some(d.put(data, Content::Half(a))),
                None => None,
            },
            _ => None,
        }
    } else {
        None
    }
}

/// An FP8 multiplication with one scale per operand: the operands are those of
/// the projection of the activation.
pub open spec fn multiplies(call: LayerCall, d: Device, g: LtGemm, a: Activation) -> bool {
    let p = projection_of(a);
    let w = weights_of(call, p);
    &&& d.holds(g.a_scale, Content::TokenScales(a))
    &&& g.b == w.fp8
    &&& g.b_scale == w.scale
    &&& shaped(call, p, g.m as int, g.n as int, g.k as int)
}

pub open spec fn perform_lt_gemm(call: LayerCall, d: Device, g: LtGemm) -> Option<Device> {
    match quantized_at(d, g.a) {
        Some(a) => if multiplies(call, d, g, a) && weights_of(call, projection_of(a)).chscale
            == 0 {
            Some(d.put(g.out, Content::Product(projection_of(a))))
        } else {
            None
        },
        None => None,
    }
}

pub open spec fn perform_lt_gemm_f32(call: LayerCall, d: Device, g: LtGemm) -> Option<Device> {
    match quantized_at(d, g.a) {
        Some(a) => if multiplies(call, d, g, a) {
            let missing = if weights_of(call, projection_of(a)).chscale == 0 {
                Missing::Nothing
            } else if call.dims.num_tokens > 1 {
                Missing::RowsAndCols
            } else {
                Missing::Cols
            };
            Some(d.put(g.out, Content::WideProduct(projection_of(a), missing)))
        } else {
            None
        },
        None => None,
    }
}

pub open spec fn perform_f16_gemm(
    call: LayerCall,
    d: Device,
    a: u64,
    b: u64,
    out: u64,
    m: int,
    n: int,
    k: int,
) -> Option<Device> {
    match half_at(d, a) {
        Some(x) => {
            let p = projection_of(x);
            if b == weights_of(call, p).half && b != 0 && shaped(call, p, m, n, k) {
                Some(d.put(out, Content::WideProduct(p, Missing::Nothing)))
            } else {
                None
            }
        },
        None => None,
    }
}

pub open spec fn perform_gemv(
    call: LayerCall,
    d: Device,
    kernel: KernelFn,
    m: int,
    n: int,
    k: int,
    out: u64,
    weight: u64,
    blockscale: u64,
    input: u64,
) -> Option<Device> {
    match half_at(d, input) {
        Some(x) => {
            let p = projection_of(x);
            let w = weights_of(call, p);
            if weight == w.fp8 && blockscale == w.blockscale && blockscale != 0 && shaped(
                call,
                p,
                m,
                n,
                k,
            ) && call.kernels.fp8_gemv_wpr_native_f16in == Some(kernel) {
                Some(d.put(out, Content::Product(p)))
            } else {
                None
            }
        },
        None => None,
    }
}

pub open spec fn perform_cast(
    call: LayerCall,
    d: Device,
    kernel: KernelFn,
    n: int,
    dst: u64,
    src: u64,
) -> Option<Device> {
    match wide_at(d, src) {
        Some((p, Missing::Nothing)) => if kernel == call.kernels.f32_to_f16_sat && n
            == call.dims.num_tokens * weights_of(call, p).rows {
            Some(d.put(dst, Content::Product(p)))
        } else {
            None
        },
        _ => None,
    }
}

/// A raw launch that scales a product: the rows first, where more than the first
/// are wrong, then the columns.
pub open spec fn perform_scale(call: LayerCall, d: Device, launch: RawLaunch) -> Option<Device> {
    let a = launch.args->Scale_0;
    match wide_at(d, a.data) {
        Some((p, missing)) => {
            let w = weights_of(call, p);
            let t = call.dims.num_tokens as int;
            if !(a.m == t && a.n == w.rows && launch.grid.0 * 256 >= t * w.rows && launch.grid.1
                == 1 && launch.grid.2 == 1 && launch.block == (256u32, 1u32, 1u32)
                && launch.stream == call.stream) {
                None
            } else {
                match missing {
                    Missing::RowsAndCols => if launch.kernel == call.kernels.scale_rows_f32_ratio
                        && d.holds(a.scale, Content::TokenScales(activation_of(p))) {
                        Some(d.put(a.data, Content::WideProduct(p, Missing::Cols)))
                    } else {
                        None
                    },
                    Missing::Cols => if launch.kernel == call.kernels.scale_cols_f32 && a.scale
                        == w.chscale && w.chscale != 0 {
                        Some(d.put(a.data, Content::WideProduct(p, Missing::Nothing)))
                    } else {
                        None
                    },
                    Missing::Nothing => None,
                }
            }
        },
        None => None,
    }
}

pub open spec fn perform_prep(call: LayerCall, d: Device, c: PrepCall) -> Option<Device> {
    match *call.cutlass {
        CutlassBackend::SoSm120(lib) => if c.stream != call.stream {
            None
        } else if c.kernel@ == "prep_sfa_sm120"@ {
            if lib.resolved().prep_sfa == Some(c.entry) && d.mem.contains_key(c.src) {
                match d.mem[c.src] {
                    Content::TokenScales(a) => if c.dim_outer == call.dims.num_tokens
                        && c.dim_inner == weights_of(call, projection_of(a)).cols {
                        Some(d.put(c.dst, Content::LaidOutTokenScales(a)))
                    } else {
                        None
                    },
                    _ => None,
                }
            } else {
                None
            }
        } else if c.kernel@ == "prep_sfb_sm120"@ && lib.resolved().prep_sfb == Some(c.entry)
            && c.src != 0 {
            Some(
                d.put(
                    c.dst,
                    Content::LaidOutBlockScales {
                        src: c.src,
                        outer: c.dim_outer as int,
                        inner: c.dim_inner as int,
                    },
                ),
            )
        } else {
            None
        },
        _ => None,
    }
}

pub open spec fn perform_cutlass_gemm(call: LayerCall, d: Device, c: GemmCall) -> Option<Device> {
    match quantized_at(d, c.a) {
        Some(a) => {
            let p = projection_of(a);
            let w = weights_of(call, p);
            let right = {
                &&& c.b == w.fp8
                &&& shaped(call, p, c.m as int, c.n as int, c.k as int)
                &&& c.residual is None
                &&& c.workspace == call.scratch.cutlass_workspace
                &&& c.workspace_size == call.scratch.cutlass_workspace_bytes
                &&& c.stream == call.stream
                &&& match *call.cutlass {
                    CutlassBackend::So(lib) => lib.channelscale() == Some(c.entry) && d.holds(
                        c.a_scale,
                        Content::TokenScales(a),
                    ) && c.b_scale == w.chscale && w.chscale != 0,
                    CutlassBackend::SoSm120(lib) => lib.resolved().fp8_gemm_blockscale == Some(
                        c.entry,
                    ) && c.m >= 128 && d.holds(c.a_scale, Content::LaidOutTokenScales(a))
                        && d.holds(
                        c.b_scale,
                        Content::LaidOutBlockScales {
                            src: w.blockscale,
                            outer: w.rows,
                            inner: w.cols,
                        },
                    ) && w.blockscale != 0,
                    CutlassBackend::Absent => false,
                }
            };
            if right {
                Some(d.put(c.output, Content::Product(p)))
            } else {
                None
            }
        },
        None => None,
    }
}

pub open spec fn perform_qkv_norm(call: LayerCall, d: Device, n: QkvNorm) -> Option<Device> {
    let dims = call.dims;
    if d.holds(n.q_in, Content::Product(Projection::Qkv)) && n.k_in == call.scratch.k_out && n.v_in
        == call.scratch.v_out && n.kernel == call.kernels.fused_qkv_rmsnorm && n.num_tokens
        == dims.num_tokens && n.num_heads == dims.num_heads && n.num_kv_heads == dims.num_kv_heads
        && n.head_dim == dims.head_dim && n.eps == dims.rms_eps && n.src_row_stride == weights_of(
        call,
        Projection::Qkv,
    ).rows && n.q_gamma == call.weights.q_norm_gamma && n.k_gamma == call.weights.k_norm_gamma {
        Some(
            d.put(n.q_out, Content::NormedQueries).put(n.k_out, Content::NormedKeys).put(
                n.v_out,
                Content::NormedValues,
            ),
        )
    } else {
        None
    }
}

/// Whether three buffers hold normed queries, keys and values.
pub open spec fn normed_heads(d: Device, q: u64, k: u64, v: u64) -> bool {
    d.holds(q, Content::NormedQueries) && d.holds(k, Content::NormedKeys) && d.holds(
        v,
        Content::NormedValues,
    )
}

pub open spec fn perform_rope_fp8(call: LayerCall, d: Device, r: RopeFp8Kv) -> Option<Device> {
    let dims = call.dims;
    let s = call.scratch;
    if normed_heads(d, r.q_in, r.k_in, r.v_in) && r.kernel == call.kernels.fused_rope_partial_fp8kv
        && r.num_tokens == dims.num_tokens && r.num_heads == dims.num_heads && r.num_kv_heads
        == dims.num_kv_heads && r.head_dim == dims.head_dim && r.rotary_dim == dims.rotary_dim
        && r.k_scale_cache == s.k_scale_cache && r.v_scale_cache == s.v_scale_cache
        && r.q_scale_cache == s.q_scale_cache && r.cos == call.meta.cos && r.sin == call.meta.sin
        && r.positions == call.meta.positions && r.slot_mapping == call.meta.slot_mapping
        && r.q_scale == s.q_scale_ptr {
        Some(
            d.put(r.q_fp8, Content::Queries).put(r.k_cache, Content::KeyCache).put(
                r.v_cache,
                Content::ValueCache,
            ),
        )
    } else {
        None
    }
}

pub open spec fn perform_rope_f16(call: LayerCall, d: Device, launch: RawLaunch) -> Option<Device> {
    let dims = call.dims;
    let a = launch.args->RopeF16Kv_0;
    if normed_heads(d, a.q_in, a.k_in, a.v_in) && launch.kernel
        == call.kernels.fused_rope_partial_f16kv && launch.stream == call.stream && launch.grid.0
        == dims.num_tokens && launch.grid.1 >= dims.num_heads && launch.grid.1
        >= dims.num_kv_heads && launch.grid.2 == 1 && launch.block.0 >= dims.head_dim / 2
        && launch.block.0 >= 32 && launch.block.1 == 1 && launch.block.2 == 1 && a.num_tokens
        == dims.num_tokens && a.num_heads == dims.num_heads && a.num_kv_heads == dims.num_kv_heads
        && a.head_dim == dims.head_dim && a.rotary_dim == dims.rotary_dim && a.cos == call.meta.cos
        && a.sin == call.meta.sin && a.positions == call.meta.positions && a.slot_mapping
        == call.meta.slot_mapping {
        Some(
            d.put(a.q_out, Content::Queries).put(a.k_cache, Content::KeyCache).put(
                a.v_cache,
                Content::ValueCache,
            ),
        )
    } else {
        None
    }
}

/// The tokens to the left that the layer attends to: all of them in a global
/// layer, one less than the window in a sliding one.
pub open spec fn window(call: LayerCall) -> int {
    match call.dims.layer_type {
        Gemma4LayerType::GlobalAttention => -1,
        Gemma4LayerType::SlidingAttention => call.dims.sliding_window - 1,
    }
}

/// Whether a decode has the shape of the layer.
pub open spec fn decode_shaped(call: LayerCall, p: PagedDecodeParams) -> bool {
    &&& p.num_heads == call.dims.num_heads
    &&& p.num_kv_heads == call.dims.num_kv_heads
    &&& p.head_dim == call.dims.head_dim
    &&& p.block_size == call.dims.block_size
    &&& p.max_blocks_per_seq == call.dims.max_blocks_per_seq
    &&& p.num_blocks_total == call.dims.num_blocks_total
    &&& p.scale == call.dims.attn_scale
    &&& p.window_size_left == window(call)
}

pub open spec fn perform_decode_f16(call: LayerCall, d: Device, x: DecodeF16) -> Option<Device> {
    if call.phase is Decode && decode_shaped(call, x.params) && x.params.num_seqs
        == call.dims.num_tokens && d.holds(x.q, Content::Queries) && d.holds(
        x.k_cache,
        Content::KeyCache,
    ) && d.holds(x.v_cache, Content::ValueCache) && x.block_tables == call.meta.block_tables
        && x.context_lens == call.meta.context_lens && x.workspace == call.scratch.fa3_workspace {
        Some(d.put(x.out, Content::Half(Activation::AttnOut)))
    } else {
        None
    }
}

/// Whether a decode over an FP8 cache reads the layer's cache and scales.
pub open spec fn reads_cache(call: LayerCall, d: Device, x: DecodeFp8) -> bool {
    let s = call.scratch;
    &&& decode_shaped(call, x.params)
    &&& d.holds(s.q_fp8, Content::Queries)
    &&& d.holds(x.k_cache, Content::KeyCache)
    &&& d.holds(x.v_cache, Content::ValueCache)
    &&& x.k_scale_cache == s.k_scale_cache
    &&& x.v_scale_cache == s.v_scale_cache
    &&& x.k_descale_fallback == 0
    &&& x.v_descale_fallback == 0
    &&& x.block_tables == call.meta.block_tables
    &&& x.workspace == s.fa3_workspace
    &&& x.q_descale == s.q_scale_ptr
}

/// A decode over an FP8 cache: of one token per sequence in a decode step, and in
/// a prefill of the next token of the prompt, whose context length is the next of
/// the counting numbers.
pub open spec fn perform_decode_fp8(call: LayerCall, d: Device, x: DecodeFp8) -> Option<Device> {
    let s = call.scratch;
    let width = call.dims.num_heads * call.dims.head_dim;
    if !reads_cache(call, d, x) {
        None
    } else {
        match call.phase {
            Gemma4Phase::Decode => if x.params.num_seqs == call.dims.num_tokens && x.q_fp8
                == s.q_fp8 && x.q_scale_cache == s.q_scale_cache && x.context_lens
                == call.meta.context_lens {
                Some(d.put(x.out, Content::Half(Activation::AttnOut)))
            } else {
                None
            },
            Gemma4Phase::Prefill { cu_seqlens_q, .. } => {
                let t = d.attended;
                if x.params.num_seqs == 1 && t < call.dims.num_tokens && d.holds(
                    cu_seqlens_q,
                    Content::Counting(call.dims.num_tokens as int),
                ) && x.context_lens == cu_seqlens_q + 4 * t && x.out == s.attn_out + 2 * (t * width)
                    && x.q_fp8 == s.q_fp8 + t * width && x.q_scale_cache == (
                if s.q_scale_cache == 0 {
                    0
                } else {
                    s.q_scale_cache + 4 * (t * call.dims.num_heads)
                }) {
                    let next = Device { attended: t + 1, ..d };
                    if t + 1 == call.dims.num_tokens {
                        Some(next.put(s.attn_out, Content::Half(Activation::AttnOut)))
                    } else {
                        Some(next)
                    }
                } else {
                    None
                }
            },
        }
    }
}

pub open spec fn perform_unified(
    call: LayerCall,
    d: Device,
    u: UnifiedPrefillLaunch,
) -> Option<Device> {
    let dims = call.dims;
    let s = call.scratch;
    let a = u.raw.args->UnifiedPrefill_0;
    if u.raw.args is UnifiedPrefill && d.holds(a.q, Content::Queries) && d.holds(
        a.k,
        Content::KeyCache,
    ) && d.holds(a.v, Content::ValueCache) && a.k_scale == s.k_scale_cache && a.v_scale
        == s.v_scale_cache && a.q_scale == s.q_scale_cache && a.k_descale_fallback == 0
        && a.v_descale_fallback == 0 && a.block_tables == call.meta.block_tables && a.context_lens
        == call.meta.context_lens && a.q_descale_fallback == s.q_scale_ptr && a.scale
        == dims.attn_scale && a.num_heads == dims.num_heads && a.num_kv_heads == dims.num_kv_heads
        && a.head_dim == dims.head_dim && a.block_size == dims.block_size as i32
        && a.max_blocks_per_seq == dims.max_blocks_per_seq as i32 && a.num_seqs == 1
        && a.window_size_left == window(call) && u.raw.grid.1 == dims.num_kv_heads && u.raw.stream
        == call.stream && (call.phase matches Gemma4Phase::Prefill { cu_seqlens_q, .. }
        && a.cu_seqlens_q == cu_seqlens_q) && 0 < a.block_q && a.block_q * u.raw.grid.0
        >= dims.num_tokens {
        Some(d.put(a.out, Content::Half(Activation::AttnOut)))
    } else {
        None
    }
}

pub open spec fn perform_attn_quant(call: LayerCall, d: Device, q: Quantize) -> Option<Device> {
    let a = Activation::AttnOut;
    if d.holds(q.input, Content::Half(a)) && q.kernel == call.kernels.quantize_fp8_per_token
        && q.num_tokens == call.dims.num_tokens && q.dim == weights_of(call, Projection::O).cols {
        Some(d.put(q.out_fp8, Content::Quantized(a)).put(q.out_scale, Content::TokenScales(a)))
    } else {
        None
    }
}

pub open spec fn perform_gelu_fp8(call: LayerCall, d: Device, q: Quantize) -> Option<Device> {
    let a = Activation::Gelu;
    if d.holds(q.input, Content::Product(Projection::GateUp)) && q.kernel
        == call.kernels.fused_gelu_mul && q.num_tokens == call.dims.num_tokens && q.dim
        == weights_of(call, Projection::Down).cols {
        Some(d.put(q.out_fp8, Content::Quantized(a)).put(q.out_scale, Content::TokenScales(a)))
    } else {
        None
    }
}

pub open spec fn perform_gelu_f16(call: LayerCall, d: Device, launch: RawLaunch) -> Option<Device> {
    let a = launch.args->GeluMul_0;
    let width = weights_of(call, Projection::Down).cols;
    if d.holds(a.inp, Content::Product(Projection::GateUp)) && a.out != a.inp && a.intermediate
        == width && launch.kernel == call.kernels.fused_gelu_mul_f16 && launch.stream
        == call.stream && launch.grid == (call.dims.num_tokens, 1u32, 1u32) && launch.block.0
        <= 1024 && (launch.block.0 == 1024 || launch.block.0 == width) && launch.block.1 == 1
        && launch.block.2 == 1 {
        Some(d.put(a.out, Content::Half(Activation::Gelu)))
    } else {
        None
    }
}

/// A norm-add over the product of a projection: of the output projection with
/// the post-attention norm and no factor, of the down projection with the
/// post-feedforward norm and the layer's factor.
pub open spec fn perform_norm_add(
    call: LayerCall,
    d: Device,
    n: NormAdd,
    p: Projection,
    kernel: KernelFn,
) -> Option<Device> {
    let w = call.weights;
    if n.kernel == kernel && n.num_tokens == call.dims.num_tokens && n.hidden == call.dims.hidden
        && n.eps == call.dims.rms_eps && n.residual == call.residual {
        if p is O && residual_at(call, d) == 0 && n.gamma == w.post_attn_norm_gamma
            && n.layer_scalar == 0 {
            Some(d.put(call.residual, Content::Residual(1)))
        } else if p is Down && residual_at(call, d) == 1 && n.gamma == w.post_ff_norm_gamma
            && n.layer_scalar == w.layer_scalar_ptr {
            Some(d.put(call.residual, Content::Residual(2)))
        } else {
            None
        }
    } else {
        None
    }
}

/// The device once it performed an operation; `None` where the operation is not
/// one that a layer has at this point.
pub open spec fn perform(call: LayerCall, d: Device, op: LayerOp) -> Option<Device> {
    match op {
        LayerOp::CopyDtoD { dst, src, bytes } => if src == call.residual && residual_at(call, d)
            >= 0 && bytes == call.dims.num_tokens * call.dims.hidden * 2 {
            Some(d.put(dst, Content::Residual(residual_at(call, d))))
        } else {
            None
        },
        LayerOp::UploadCounting { dst, upto } => Some(d.put(dst, Content::Counting(upto as int))),
        LayerOp::RmsnormFp8Quant { quant, gamma, eps } => if eps == call.dims.rms_eps {
            perform_norm_quant(call, d, quant, gamma)
        } else {
            None
        },
        LayerOp::RmsnormInplace { kernel, num_tokens, hidden, eps, data, gamma } => if eps
            == call.dims.rms_eps {
            perform_norm_inplace(call, d, kernel, num_tokens, hidden, data, gamma)
        } else {
            None
        },
        LayerOp::F16GemmF32 { a, b, out, m, n, k } => perform_f16_gemm(
            call,
            d,
            a,
            b,
            out,
            m as int,
            n as int,
            k as int,
        ),
        LayerOp::CastToF16 { kernel, n, dst, src } => perform_cast(
            call,
            d,
            kernel,
            n as int,
            dst,
            src,
        ),
        LayerOp::Fp8GemvF16In { kernel, m, n, k, out, weight, blockscale, input } => perform_gemv(
            call,
            d,
            kernel,
            m as int,
            n as int,
            k as int,
            out,
            weight,
            blockscale,
            input,
        ),
        LayerOp::Fp8Gemm(g) => perform_lt_gemm(call, d, g),
        LayerOp::Fp8GemmF32(g) => perform_lt_gemm_f32(call, d, g),
        LayerOp::QkvRmsnorm(n) => perform_qkv_norm(call, d, n),
        LayerOp::RopePartialFp8Kv(r) => perform_rope_fp8(call, d, r),
        LayerOp::Raw(launch) => match launch.args {
            KernelArgs::Scale(_) => perform_scale(call, d, launch),
            KernelArgs::GeluMul(_) => perform_gelu_f16(call, d, launch),
            KernelArgs::RopeF16Kv(_) => perform_rope_f16(call, d, launch),
            KernelArgs::UnifiedPrefill(_) => None,
        },
        LayerOp::PagedDecode(x) => perform_decode_f16(call, d, x),
        LayerOp::PagedDecodeFp8(x) => perform_decode_fp8(call, d, x),
        LayerOp::UnifiedPrefill(u) => perform_unified(call, d, u),
        LayerOp::QuantizeFp8PerToken(q) => perform_attn_quant(call, d, q),
        LayerOp::NormAddResidual(n) => match wide_at(d, n.input) {
            Some((p, Missing::Nothing)) => perform_norm_add(
                call,
                d,
                n,
                p,
                call.kernels.fused_norm_add_residual,
            ),
            _ => None,
        },
        LayerOp::NormAddResidualF16In(n) => if d.mem.contains_key(n.input) {
            match d.mem[n.input] {
                Content::Product(p) => perform_norm_add(
                    call,
                    d,
                    n,
                    p,
                    call.kernels.fused_norm_add_residual_f16in,
                ),
                _ => None,
            }
        } else {
            None
        },
        LayerOp::GeluMulFp8Quant(q) => perform_gelu_fp8(call, d, q),
        LayerOp::CutlassPrep(c) => perform_prep(call, d, c),
        LayerOp::CutlassGemm(c) => perform_cutlass_gemm(call, d, c),
        LayerOp::LogitSoftcap { .. } => None,
    }
}

/// The device once it performed a list of operations in order; `None` where one
/// of them was not in its place.
pub open spec fn perform_all(call: LayerCall, d: Device, ops: Seq<LayerOp>) -> Option<Device>
    decreases ops.len(),
{
    if ops.len() == 0 {
        Some(d)
    } else {
        match perform_all(call, d, ops.drop_last()) {
            Some(e) => perform(call, e, ops.last()),
            None => None,
        }
    }
}

/// The device before a layer: the residual is that of the layer's input, and
/// nothing is known of any other buffer.
pub open spec fn before_layer(call: LayerCall) -> Device {
    Device { mem: Map::empty().insert(call.residual, Content::Residual(0)), attended: 0 }
}

} // verus!
