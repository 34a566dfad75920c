//! What the fused kernels are handed and what their references compute, said of
//! the values that go in and come out.

use crate::error::RvllmError;
use crate::fused::fp8::{
    e4m3_in_f32_units, e4m3_units, f32_to_fp8_e4m3, f32_units, is_nearest, nearest_is_unique,
    saturation_is_nearest,
};
use crate::fused::gemma4_reference::truncation_is_the_code_below;
use crate::fused::launch_raw::{
    GeluMulArgs, KernelArg, KernelArgs, RawLaunch, RopeF16KvArgs, ScaleArgs,
};
use crate::fused::reference::{
    argmax_is_first_maximum, argmax_ref, embedding_gather_ref, is_gathered, row_of,
};
use crate::ids::F32Bits;
use vstd::arithmetic::power2::{lemma2_to64, lemma_pow2_adds, lemma_pow2_pos, pow2};
use vstd::prelude::*;

verus! {

/// In every row of numbers the largest is picked, at its first place.
pub proof fn the_largest_logit_is_picked(
    logits: &[F32Bits],
    rows: usize,
    cols: usize,
    out: &mut [i32],
    i: int,
    j: int,
)
    requires
        call_ensures(argmax_ref, (logits, rows, cols, out), ()),
        logits@.len() == rows * cols,
        0 < cols <= i32::MAX,
        0 <= i < rows,
        0 <= j < cols,
        forall|k: int| 0 <= k < logits@.len() ==> !(#[trigger] logits@[k]).is_nan(),
    ensures
        final(out)@.len() == rows,
        0 <= final(out)@[i] < cols,
        !logits@[i * cols + final(out)@[i]].less(logits@[i * cols + j]),
        j < final(out)@[i] ==> logits@[i * cols + j].less(logits@[i * cols + final(out)@[i]]),
{
    let c = cols as int;
    assert(0 <= i * c && i * c + c <= rows * c) by (nonlinear_arith)
        requires
            0 <= i < rows,
            0 <= c,
    ;
    let row = row_of(logits@, i, c);
    assert forall|k: int| 0 <= k < row.len() implies !(#[trigger] row[k]).is_nan() by {
        assert(row[k] == logits@[i * c + k]);
    }
    argmax_is_first_maximum(row);
    let best = final(out)@[i] as int;
    assert(row[best] == logits@[i * c + best]);
    assert(row[j] == logits@[i * c + j]);
}

/// Row `t` of a gathered matrix is the row of the table that token `t` names.
pub proof fn gathered_rows_are_the_tokens_rows<T: Copy>(
    tokens: &[u32],
    weight: &[T],
    hidden: usize,
    vocab: usize,
    out: &mut [T],
    t: int,
    j: int,
)
    requires
        call_ensures(embedding_gather_ref::<T>, (tokens, weight, hidden, vocab, out), ()),
        weight@.len() == hidden * vocab,
        old(out)@.len() == hidden * tokens@.len(),
        forall|k: int| 0 <= k < tokens@.len() ==> #[trigger] tokens@[k] < vocab,
        0 <= t < tokens@.len(),
        0 <= j < hidden,
    ensures
        final(out)@[t * hidden + j] == weight@[tokens@[t] * hidden + j],
{
    let h = hidden as int;
    let n = tokens@.len() as int;
    let v = vocab as int;
    let k = tokens@[t] as int;
    assert(0 <= t * h && t * h + h <= h * n) by (nonlinear_arith)
        requires
            0 <= t < n,
            0 <= h,
    ;
    assert(0 <= k * h && k * h + h <= h * v) by (nonlinear_arith)
        requires
            0 <= k < v,
            0 <= h,
    ;
    assert(is_gathered(final(out)@, tokens@, weight@, h));
    assert(row_of(final(out)@, t, h) == row_of(weight@, k, h));
    assert(row_of(final(out)@, t, h)[j] == final(out)@[t * h + j]);
    assert(row_of(weight@, k, h)[j] == weight@[k * h + j]);
}

/// The conversion to FP8 rounds a number to the nearest code and keeps its sign;
/// beyond the largest value it gives the largest code. Zero has no sign.
pub proof fn conversion_rounds_to_nearest(x: F32Bits, r: u8)
    requires
        call_ensures(f32_to_fp8_e4m3, (x,), r),
        x.magnitude() > 0,
    ensures
        r >= 0x80 <==> x.0 >= 0x8000_0000,
        is_nearest(f32_units(x.magnitude()), r as int % 0x80),
{
    if x.magnitude() > 0x43e0_0000 {
        saturation_is_nearest(x.magnitude());
    }
}

/// Numbers that differ in their sign alone have codes that differ in their sign
/// alone.
pub proof fn conversion_is_odd(a: u32, p: u8, n: u8)
    requires
        0 < a < 0x8000_0000,
        call_ensures(f32_to_fp8_e4m3, (F32Bits(a),), p),
        call_ensures(f32_to_fp8_e4m3, (F32Bits((a + 0x8000_0000) as u32),), n),
    ensures
        n == p + 0x80,
{
    let x = F32Bits(a);
    let y = F32Bits((a + 0x8000_0000) as u32);
    assert(x.magnitude() == y.magnitude());
    if x.magnitude() <= 0x43e0_0000 {
        nearest_is_unique(f32_units(x.magnitude()), p as int, n as int - 0x80);
    }
}

/// The conversion by truncation gives the code at or below the value, with its
/// sign, as long as the value lies in the range of codes with an exponent.
pub proof fn truncation_goes_towards_zero(x: F32Bits, r: u8)
    requires
        call_ensures(crate::fused::gemma4_reference::f32_to_fp8_e4m3, (x,), r),
        121 * 0x80_0000 <= x.magnitude() < 135 * 0x80_0000,
    ensures
        ({
            let code = if x.0 >= 0x8000_0000 {
                r as int - 0x80
            } else {
                r as int
            };
            e4m3_in_f32_units(code) <= f32_units(x.magnitude())
                < e4m3_in_f32_units(code + 1)
        }),
{
    truncation_is_the_code_below(x.magnitude());
}

/// Each scaling, GELU and RoPE argument stands at its place in the kernel's
/// signature.
pub proof fn arguments_stand_in_their_places(
    scale: ScaleArgs,
    gelu: GeluMulArgs,
    rope: RopeF16KvArgs,
    s: Vec<KernelArg>,
    g: Vec<KernelArg>,
    p: Vec<KernelArg>,
)
    requires
        call_ensures(KernelArgs::list, (&KernelArgs::Scale(scale),), s),
        call_ensures(KernelArgs::list, (&KernelArgs::GeluMul(gelu),), g),
        call_ensures(KernelArgs::list, (&KernelArgs::RopeF16Kv(rope),), p),
    ensures
        s@.len() == 4,
        s@[0] == KernelArg::Ptr(scale.data) && s@[1] == KernelArg::Ptr(scale.scale),
        s@[2] == KernelArg::I32(scale.m) && s@[3] == KernelArg::I32(scale.n),
        g@.len() == 3,
        g@[0] == KernelArg::Ptr(gelu.out) && g@[1] == KernelArg::Ptr(gelu.inp),
        g@[2] == KernelArg::I32(gelu.intermediate),
        p@.len() == 15,
        p@[0] == KernelArg::Ptr(rope.q_in) && p@[1] == KernelArg::Ptr(rope.k_in),
        p@[2] == KernelArg::Ptr(rope.v_in) && p@[3] == KernelArg::Ptr(rope.q_out),
        p@[4] == KernelArg::Ptr(rope.k_cache) && p@[5] == KernelArg::Ptr(rope.v_cache),
        p@[6] == KernelArg::Ptr(rope.cos) && p@[7] == KernelArg::Ptr(rope.sin),
        p@[8] == KernelArg::Ptr(rope.positions) && p@[9] == KernelArg::Ptr(rope.slot_mapping),
        p@[10] == KernelArg::I32(rope.num_tokens) && p@[11] == KernelArg::I32(rope.num_heads),
        p@[12] == KernelArg::I32(rope.num_kv_heads) && p@[13] == KernelArg::I32(rope.head_dim),
        p@[14] == KernelArg::I32(rope.rotary_dim),
{
}

/// A launch has succeeded exactly where the driver answered zero or was not asked;
/// the error names the kernel, the stream, the grid and the block.
pub proof fn launches_succeed_where_the_driver_says_so(
    l: RawLaunch,
    rc: Option<u32>,
    r: Result<(), RvllmError>,
)
    requires
        call_ensures(RawLaunch::finish, (&l, rc), r),
    ensures
        r is Err <==> (rc matches Some(code) && code != 0),
        r matches Err(e) ==> (e matches RvllmError::Cuda { ctx, .. } && ctx.stream == l.stream
            && ctx.kernel == l.kernel.name && (ctx.launch matches Some(a) && a.grid == l.grid
            && a.block == l.block && a.smem == l.shared_mem_bytes)),
{
}

/// The codes are worth what E4M3 says: the first sixteen count units, eight codes
/// further on the value is doubled, and the code of one is worth a single's one.
pub proof fn codes_are_worth_their_value(code: int)
    ensures
        0 <= code < 16 ==> e4m3_units(code) == code,
        8 <= code ==> e4m3_units(code + 8) == 2 * e4m3_units(code),
        e4m3_in_f32_units(0x38) == f32_units(0x3f80_0000),
{
    lemma2_to64();
    if 0 <= code < 8 {
        assert(code / 8 == 0 && code % 8 == code);
    } else if 8 <= code < 16 {
        assert(code / 8 == 1 && code % 8 == code - 8);
        assert(e4m3_units(code) == code * pow2(0));
    }
    if 8 <= code {
        let e = code / 8;
        let m = code % 8;
        assert((code + 8) / 8 == e + 1 && (code + 8) % 8 == m);
        lemma_pow2_adds(1, (e - 1) as nat);
        let p = pow2((e - 1) as nat) as int;
        assert((8 + m) * (2 * p) == 2 * ((8 + m) * p)) by (nonlinear_arith);
    }
    assert(0x38int / 8 == 7 && 0x38int % 8 == 0);
    assert(0x3f80_0000int / 0x80_0000 == 127 && 0x3f80_0000int % 0x80_0000 == 0);
    assert(e4m3_units(0x38) == 512);
    lemma_pow2_adds(9, 140);
    lemma_pow2_adds(23, 126);
}

/// The bits of a single are worth what IEEE 754 says: without an exponent they
/// count the smallest single, one more in the exponent doubles the value, and the
/// exponents join without a step.
pub proof fn bits_are_worth_their_value(m: int)
    ensures
        0 <= m <= 0x80_0000 ==> f32_units(m) == m,
        m >= 0x80_0000 ==> f32_units(m + 0x80_0000) == 2 * f32_units(m),
{
    lemma2_to64();
    if 0 <= m < 0x80_0000 {
        assert(m / 0x80_0000 == 0 && m % 0x80_0000 == m);
    }
    if m == 0x80_0000 {
        assert(m / 0x80_0000 == 1 && m % 0x80_0000 == 0);
        assert(f32_units(m) == 0x80_0000 * pow2(0));
    }
    if m >= 0x80_0000 {
        let e = m / 0x80_0000;
        let r = m % 0x80_0000;
        assert((m + 0x80_0000) / 0x80_0000 == e + 1 && (m + 0x80_0000) % 0x80_0000 == r);
        lemma_pow2_adds(1, (e - 1) as nat);
        let p = pow2((e - 1) as nat) as int;
        assert((r + 0x80_0000) * (2 * p) == 2 * ((r + 0x80_0000) * p)) by (nonlinear_arith);
    }
}

/// Below the codes with an exponent, truncation counts in steps of two units: twice
/// the code is at or below the value, and two more are above it.
pub proof fn small_values_are_counted_in_pairs(x: F32Bits, r: u8)
    requires
        call_ensures(crate::fused::gemma4_reference::f32_to_fp8_e4m3, (x,), r),
        111 * 0x80_0000 <= x.magnitude() < 121 * 0x80_0000,
    ensures
        ({
            let code = if x.0 >= 0x8000_0000 {
                r as int - 0x80
            } else {
                r as int
            };
            &&& 0 <= code < 4
            &&& (2 * code) * pow2(140) <= f32_units(x.magnitude()) < (2 * code + 2) * pow2(140)
        }),
{
    let mag = x.magnitude();
    let e = mag / 0x80_0000;
    let full = mag % 0x80_0000 + 0x80_0000;
    let s = (142 - e) as nat;
    let d = pow2(s) as int;
    let g = pow2((e - 1) as nat) as int;
    let c = full / d;
    lemma2_to64();
    lemma_pow2_pos(s);
    lemma_pow2_pos((e - 1) as nat);
    lemma_pow2_adds(s, (e - 1) as nat);
    lemma_pow2_adds(1, 140);
    assert(d * g == 2 * pow2(140));
    assert(c * d <= full < (c + 1) * d) by (nonlinear_arith)
        requires
            d > 0,
            c == full / d,
    ;
    assert((c * d) * g <= full * g < ((c + 1) * d) * g) by (nonlinear_arith)
        requires
            c * d <= full < (c + 1) * d,
            g > 0,
    ;
    let p = pow2(140) as int;
    assert((c * d) * g == (2 * c) * p && ((c + 1) * d) * g == (2 * c + 2) * p) by (nonlinear_arith)
        requires
            d * g == 2 * p,
    ;
    assert(0 <= c < 4) by (nonlinear_arith)
        requires
            d >= 0x40_0000,
            0 <= full < 0x100_0000,
            c == full / d,
    ;
}

} // verus!
