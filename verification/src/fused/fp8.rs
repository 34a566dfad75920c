//! FP8 E4M3: four exponent bits with bias seven, three mantissa bits, largest
//! value 448.

use crate::ids::F32Bits;
use vstd::arithmetic::power2::{
    lemma2_to64, lemma_pow2_adds, lemma_pow2_pos, lemma_pow2_strictly_increases, pow2,
};
use vstd::prelude::*;

verus! {

/// The code of 448, the largest value.
pub const E4M3_MAX_CODE: u8 = 0x7e;

/// The bits of 448 as a single.
pub const F32_448: u32 = 0x43e0_0000;

/// The value of a code without its sign, in units of the smallest value, two to
/// the minus nine.
pub open spec fn e4m3_units(code: int) -> int {
    let e = code / 8;
    let m = code % 8;
    if e == 0 {
        m
    } else {
        (8 + m) * pow2((e - 1) as nat)
    }
}

/// The value of the magnitude bits of a single, in units of two to the minus
/// 149, the smallest single.
pub open spec fn f32_units(magnitude: int) -> int {
    let e = magnitude / 0x80_0000;
    let m = magnitude % 0x80_0000;
    if e == 0 {
        m
    } else {
        (m + 0x80_0000) * pow2((e - 1) as nat)
    }
}

/// The value of a code in units of the smallest single.
pub open spec fn e4m3_in_f32_units(code: int) -> int {
    e4m3_units(code) * pow2(140)
}

pub open spec fn distance(a: int, b: int) -> int {
    if a <= b {
        b - a
    } else {
        a - b
    }
}

/// Whether a code's value is nearest to `x` among all codes; of two that are
/// equally near, the even one.
pub open spec fn is_nearest(x: int, code: int) -> bool {
    &&& 0 <= code <= E4M3_MAX_CODE
    &&& forall|c: int|
        0 <= c <= E4M3_MAX_CODE && c != code ==> {
            let here = distance(x, e4m3_in_f32_units(code));
            let there = distance(x, #[trigger] e4m3_in_f32_units(c));
            here < there || (here == there && code % 2 == 0)
        }
}

/// The first code with an exponent continues the subnormal ones.
proof fn eighth_code()
    ensures
        e4m3_units(8) == 8,
{
    lemma2_to64();
    assert(8int / 8 == 1 && 8int % 8 == 0);
    assert(e4m3_units(8) == 8 * pow2(0));
}

/// Larger codes have larger values.
pub proof fn units_increase(a: int, b: int)
    requires
        0 <= a < b <= 127,
    ensures
        e4m3_units(a) < e4m3_units(b),
    decreases b - a,
{
    if a + 1 < b {
        units_increase(a, b - 1);
    }
    let c = b - 1;
    let e = c / 8;
    let m = c % 8;
    if e == 0 {
        if m == 7 {
            eighth_code();
        }
    } else {
        let p = pow2((e - 1) as nat) as int;
        lemma_pow2_pos((e - 1) as nat);
        if m == 7 {
            lemma_pow2_adds((e - 1) as nat, 1);
            lemma2_to64();
            assert(b / 8 == e + 1 && b % 8 == 0);
            assert(e4m3_units(b) == 8 * (p * 2));
            assert(e4m3_units(c) == 15 * p);
        } else {
            assert(b / 8 == e && b % 8 == m + 1);
            assert((8 + m) * p < (9 + m) * p) by (nonlinear_arith)
                requires
                    p > 0,
            ;
        }
    }
}

/// A value between two neighbouring codes is nearest to the nearer of them.
/// Everything is scaled by `g`: a code is worth its units times `d`.
proof fn between_neighbours(q: int, v: int, d: int, g: int, up: bool)
    requires
        0 <= q <= 126,
        d > 0,
        g > 0,
        d * g == pow2(140),
        e4m3_units(q) * d <= v < e4m3_units(q + 1) * d,
        up <==> ({
            let below = v - e4m3_units(q) * d;
            let above = e4m3_units(q + 1) * d - v;
            above < below || (above == below && q % 2 == 1)
        }),
        up ==> q < 126,
    ensures
        is_nearest(
            v * g,
            if up {
                q + 1
            } else {
                q
            },
        ),
{
    let r = if up {
        q + 1
    } else {
        q
    };
    assert forall|c: int| 0 <= c <= E4M3_MAX_CODE && c != r implies ({
        let here = distance(v * g, e4m3_in_f32_units(r));
        let there = distance(v * g, #[trigger] e4m3_in_f32_units(c));
        here < there || (here == there && r % 2 == 0)
    }) by {
        let uq = e4m3_units(q);
        let un = e4m3_units(q + 1);
        let uc = e4m3_units(c);
        let ur = e4m3_units(r);
        if c < q {
            units_increase(c, q);
        }
        if c > q + 1 {
            units_increase(q + 1, c);
        }
        let here = distance(v, ur * d);
        let there = distance(v, uc * d);
        assert(c < q ==> uc * d < uq * d) by (nonlinear_arith)
            requires
                d > 0,
                c < q ==> uc < uq,
        ;
        assert(c > q + 1 ==> uc * d > un * d) by (nonlinear_arith)
            requires
                d > 0,
                c > q + 1 ==> uc > un,
        ;
        assert(here < there || (here == there && r % 2 == 0));
        scaled_distance(v, ur, d, g);
        scaled_distance(v, uc, d, g);
        assert(here < there ==> here * g < there * g) by (nonlinear_arith)
            requires
                g > 0,
        ;
    }
}

proof fn scaled_distance(v: int, u: int, d: int, g: int)
    requires
        d > 0,
        g > 0,
        d * g == pow2(140),
    ensures
        distance(v * g, u * pow2(140)) == distance(v, u * d) * g,
{
    let p = pow2(140) as int;
    let ud = u * d;
    assert(u * p == ud * g) by (nonlinear_arith)
        requires
            d * g == p,
            ud == u * d,
    ;
    assert(v * g - ud * g == (v - ud) * g && ud * g - v * g == (ud - v) * g && (v <= ud <==> v * g
        <= ud * g)) by (nonlinear_arith)
        requires
            g > 0,
    ;
}

/// `t` divided by `d`, rounded to the nearest integer, ties to the even one.
fn round_div(t: u32, d: u32) -> (r: u32)
    requires
        d >= 2,
        d % 2 == 0,
    ensures
        ({
            let q = t as int / d as int;
            let rem = t as int % d as int;
            let up = rem > d / 2 || (rem == d / 2 && q % 2 == 1);
            r == if up {
                q + 1
            } else {
                q
            }
        }),
{
    let q: u32 = t / d;
    let rem: u32 = t % d;
    proof {
        assert(q <= t / 2) by (nonlinear_arith)
            requires
                d >= 2,
                q == t / d,
        ;
    }
    if rem > d / 2 || (rem == d / 2 && q % 2 == 1) {
        q + 1
    } else {
        q
    }
}

/// The divisor that takes a mantissa with its leading one to units of the
/// smallest value, by biased exponent.
fn subnormal_divisor(e: u32) -> (r: u32)
    requires
        117 <= e <= 120,
    ensures
        r == pow2((141 - e) as nat),
        r % 2 == 0,
        r >= 0x20_0000,
{
    proof {
        lemma2_to64();
    }
    if e == 117 {
        0x100_0000
    } else if e == 118 {
        0x80_0000
    } else if e == 119 {
        0x40_0000
    } else {
        0x20_0000
    }
}

/// The nearest code for magnitude bits that are at most those of 448.
fn nearest_code(magnitude: u32) -> (r: u8)
    requires
        magnitude <= F32_448,
    ensures
        is_nearest(f32_units(magnitude as int), r as int),
{
    let e: u32 = magnitude / 0x80_0000;
    let m: u32 = magnitude % 0x80_0000;
    if e >= 121 {
        let t: u32 = magnitude - 120 * 0x80_0000;
        let code: u32 = round_div(t, 0x10_0000);
        proof {
            normal_is_nearest(magnitude as int, code as int);
        }
        code as u8
    } else if e >= 117 {
        let d: u32 = subnormal_divisor(e);
        let code: u32 = round_div(m + 0x80_0000, d);
        proof {
            subnormal_is_nearest(magnitude as int, d as int, code as int);
        }
        code as u8
    } else {
        proof {
            tiny_is_nearest_to_zero(magnitude as int);
        }
        0
    }
}

/// The codes that enclose a value with an exponent, in units of its own
/// exponent: the first eight bits of the mantissa and the next ones.
proof fn enclosing_codes(magnitude: int) -> (r: (int, int, int))
    requires
        121 * 0x80_0000 <= magnitude < 136 * 0x80_0000,
    ensures
        ({
            let (q, d, g) = r;
            let m = magnitude % 0x80_0000;
            let v = m + 0x80_0000;
            &&& q == (magnitude / 0x80_0000 - 120) * 8 + m / 0x10_0000
            &&& 8 <= q <= 127
            &&& q % 8 == m / 0x10_0000
            &&& d > 0
            &&& g > 0
            &&& d * g == pow2(140)
            &&& f32_units(magnitude) == v * g
            &&& e4m3_units(q) * d == v - m % 0x10_0000
            &&& q < 127 ==> e4m3_units(q + 1) * d == v - m % 0x10_0000 + 0x10_0000
        }),
{
    let e = magnitude / 0x80_0000;
    let m = magnitude % 0x80_0000;
    let k = e - 120;
    let f = m / 0x10_0000;
    let q = k * 8 + f;
    let g = pow2((e - 1) as nat) as int;
    let d = pow2((141 - e) as nat) as int;
    let p = pow2((k - 1) as nat) as int;
    lemma_pow2_pos((e - 1) as nat);
    lemma_pow2_pos((141 - e) as nat);
    lemma_pow2_adds((141 - e) as nat, (e - 1) as nat);
    lemma_pow2_adds((k - 1) as nat, (141 - e) as nat);
    lemma2_to64();
    assert(p * d == 0x10_0000);
    assert(q / 8 == k && q % 8 == f);
    assert(e4m3_units(q) == (8 + f) * p);
    assert(e4m3_units(q) * d == (8 + f) * 0x10_0000) by (nonlinear_arith)
        requires
            e4m3_units(q) == (8 + f) * p,
            p * d == 0x10_0000,
    ;
    if f < 7 {
        assert((q + 1) / 8 == k && (q + 1) % 8 == f + 1);
        assert(e4m3_units(q + 1) == (9 + f) * p);
        assert(e4m3_units(q + 1) * d == (9 + f) * 0x10_0000) by (nonlinear_arith)
            requires
                e4m3_units(q + 1) == (9 + f) * p,
                p * d == 0x10_0000,
        ;
    } else if k < 15 {
        lemma_pow2_adds((k - 1) as nat, 1);
        assert((q + 1) / 8 == k + 1 && (q + 1) % 8 == 0);
        assert(e4m3_units(q + 1) == 8 * (p * 2));
        assert(e4m3_units(q + 1) * d == 16 * 0x10_0000) by (nonlinear_arith)
            requires
                e4m3_units(q + 1) == 8 * (p * 2),
                p * d == 0x10_0000,
        ;
    }
    assert(m + 0x80_0000 == (8 + f) * 0x10_0000 + m % 0x10_0000);
    (q, d, g)
}

/// Cutting the mantissa off after three bits gives the largest code that is
/// worth no more than the value.
pub proof fn between_codes(magnitude: int)
    requires
        121 * 0x80_0000 <= magnitude < F32_448,
    ensures
        ({
            let q = (magnitude / 0x80_0000 - 120) * 8 + magnitude % 0x80_0000 / 0x10_0000;
            e4m3_in_f32_units(q) <= f32_units(magnitude) < e4m3_in_f32_units(q + 1)
        }),
{
    let (q, d, g) = enclosing_codes(magnitude);
    let v = magnitude % 0x80_0000 + 0x80_0000;
    let p = pow2(140) as int;
    let (a, b) = (e4m3_units(q), e4m3_units(q + 1));
    assert(a * p == (a * d) * g && b * p == (b * d) * g) by (nonlinear_arith)
        requires
            d * g == p,
    ;
    let (ad, bd) = (a * d, b * d);
    assert(ad * g <= v * g < bd * g) by (nonlinear_arith)
        requires
            ad <= v < bd,
            g > 0,
    ;
}

proof fn normal_is_nearest(magnitude: int, code: int)
    requires
        121 * 0x80_0000 <= magnitude <= F32_448,
        ({
            let t = magnitude - 120 * 0x80_0000;
            let q = t / 0x10_0000;
            let rem = t % 0x10_0000;
            let up = rem > 0x8_0000 || (rem == 0x8_0000 && q % 2 == 1);
            code == if up {
                q + 1
            } else {
                q
            }
        }),
    ensures
        is_nearest(f32_units(magnitude), code),
        code <= 126,
{
    let (q, d, g) = enclosing_codes(magnitude);
    let m = magnitude % 0x80_0000;
    let t = magnitude - 120 * 0x80_0000;
    assert(q == t / 0x10_0000 && m % 0x10_0000 == t % 0x10_0000);
    let rem = t % 0x10_0000;
    let up = rem > 0x8_0000 || (rem == 0x8_0000 && q % 2 == 1);
    between_neighbours(q, m + 0x80_0000, d, g, up);
}

proof fn subnormal_is_nearest(magnitude: int, d: int, code: int)
    requires
        117 * 0x80_0000 <= magnitude < 121 * 0x80_0000,
        d == pow2((141 - magnitude / 0x80_0000) as nat),
        d >= 0x20_0000,
        d % 2 == 0,
        ({
            let v = magnitude % 0x80_0000 + 0x80_0000;
            let q = v / d;
            let rem = v % d;
            let up = rem > d / 2 || (rem == d / 2 && q % 2 == 1);
            code == if up {
                q + 1
            } else {
                q
            }
        }),
    ensures
        is_nearest(f32_units(magnitude), code),
        code <= 126,
{
    let e = magnitude / 0x80_0000;
    let v = magnitude % 0x80_0000 + 0x80_0000;
    let q = v / d;
    let rem = v % d;
    let up = rem > d / 2 || (rem == d / 2 && q % 2 == 1);
    let g = pow2((e - 1) as nat) as int;
    lemma_pow2_pos((e - 1) as nat);
    lemma_pow2_adds((141 - e) as nat, (e - 1) as nat);
    assert(v == q * d + rem && 0 <= rem < d && 0 <= q < 8) by (nonlinear_arith)
        requires
            d >= 0x20_0000,
            0 <= v < 0x100_0000,
            q == v / d,
            rem == v % d,
    ;
    lemma2_to64();
    assert(e4m3_units(q) == q);
    eighth_code();
    assert(e4m3_units(q + 1) == q + 1);
    assert((q + 1) * d == q * d + d) by (nonlinear_arith);
    between_neighbours(q, v, d, g, up);
}

proof fn tiny_is_nearest_to_zero(magnitude: int)
    requires
        0 <= magnitude < 117 * 0x80_0000,
    ensures
        is_nearest(f32_units(magnitude), 0),
{
    let e = magnitude / 0x80_0000;
    let m = magnitude % 0x80_0000;
    let x = f32_units(magnitude);
    let p = pow2(140) as int;
    let h = pow2(139) as int;
    lemma_pow2_adds(139, 1);
    lemma2_to64();
    lemma_pow2_pos(139);
    assert(p == 2 * h);
    assert(0 <= x < h) by {
        if e == 0 {
            lemma_pow2_adds(24, 115);
            lemma_pow2_pos(115);
            assert(h == 0x100_0000 * pow2(115));
            assert(0x100_0000 * pow2(115) >= 0x100_0000) by (nonlinear_arith)
                requires
                    pow2(115) > 0,
            ;
        } else {
            let s = pow2((e - 1) as nat) as int;
            lemma_pow2_pos((e - 1) as nat);
            if e - 1 < 115 {
                lemma_pow2_strictly_increases((e - 1) as nat, 115);
            }
            lemma_pow2_adds(24, 115);
            assert(h == 0x100_0000 * pow2(115));
            assert(0 <= (m + 0x80_0000) * s < 0x100_0000 * pow2(115)) by (nonlinear_arith)
                requires
                    0 <= m < 0x80_0000,
                    0 < s <= pow2(115),
            ;
        }
    }
    assert(e4m3_units(0) == 0);
    assert(e4m3_in_f32_units(0) == 0) by (nonlinear_arith)
        requires
            e4m3_in_f32_units(0) == e4m3_units(0) * p,
            e4m3_units(0) == 0,
    ;
    assert forall|c: int| 0 <= c <= E4M3_MAX_CODE && c != 0 implies ({
        let here = distance(x, e4m3_in_f32_units(0));
        let there = distance(x, #[trigger] e4m3_in_f32_units(c));
        here < there || (here == there && 0int % 2 == 0)
    }) by {
        units_increase(0, c);
        let u = e4m3_units(c);
        assert(u * p >= p) by (nonlinear_arith)
            requires
                u >= 1,
                p > 0,
        ;
    }
}

/// Conversion to FP8 E4M3, rounded to nearest and saturated at 448 on both
/// sides. Both zeros become zero; what is no number saturates.
pub fn f32_to_fp8_e4m3(x: F32Bits) -> (r: u8)
    ensures
        ({
            let magnitude = x.magnitude();
            let sign: int = if x.0 >= 0x8000_0000 {
                0x80
            } else {
                0
            };
            if magnitude == 0 {
                r == 0
            } else if magnitude > F32_448 {
                r == sign + E4M3_MAX_CODE
            } else {
                sign <= r <= sign + E4M3_MAX_CODE && is_nearest(f32_units(magnitude), r - sign)
            }
        }),
{
    let negative = x.0 >= 0x8000_0000;
    let magnitude: u32 = if negative {
        x.0 - 0x8000_0000
    } else {
        x.0
    };
    let sign: u8 = if negative {
        0x80
    } else {
        0
    };
    if magnitude == 0 {
        return 0;
    }
    if magnitude > F32_448 {
        return sign + E4M3_MAX_CODE;
    }
    sign + nearest_code(magnitude)
}

/// From 448 on the saturated code is the nearest one.
pub proof fn saturation_is_nearest(magnitude: int)
    requires
        F32_448 <= magnitude < 0x8000_0000,
    ensures
        is_nearest(f32_units(magnitude), E4M3_MAX_CODE as int),
{
    let top = E4M3_MAX_CODE as int;
    let x = f32_units(magnitude);
    let p = pow2(140) as int;
    lemma_pow2_pos(140);
    let (q, d, g) = enclosing_codes(F32_448 as int);
    assert(q == top);
    let ut = e4m3_units(top);
    assert(ut * p == (ut * d) * g) by (nonlinear_arith)
        requires
            d * g == p,
    ;
    assert(e4m3_in_f32_units(top) == f32_units(F32_448 as int));
    f32_units_increase(F32_448 as int, magnitude);
    assert forall|c: int| 0 <= c <= E4M3_MAX_CODE && c != top implies ({
        let here = distance(x, e4m3_in_f32_units(top));
        let there = distance(x, #[trigger] e4m3_in_f32_units(c));
        here < there || (here == there && top % 2 == 0)
    }) by {
        units_increase(c, top);
        let uc = e4m3_units(c);
        assert(uc * p < ut * p) by (nonlinear_arith)
            requires
                uc < ut,
                p > 0,
        ;
    }
}

/// Larger magnitude bits are a larger value.
pub proof fn f32_units_increase(a: int, b: int)
    requires
        0 <= a <= b,
    ensures
        f32_units(a) <= f32_units(b),
    decreases b - a,
{
    if a < b {
        f32_units_increase(a, b - 1);
        let c = b - 1;
        let e = c / 0x80_0000;
        let m = c % 0x80_0000;
        if m == 0x7f_ffff {
            assert(b / 0x80_0000 == e + 1 && b % 0x80_0000 == 0);
            if e == 0 {
                lemma2_to64();
                assert(f32_units(b) == 0x80_0000 * pow2(0));
                assert(f32_units(c) == 0x7f_ffff);
            } else {
                let p = pow2((e - 1) as nat) as int;
                lemma_pow2_pos((e - 1) as nat);
                lemma_pow2_adds((e - 1) as nat, 1);
                lemma2_to64();
                assert(f32_units(b) == 0x80_0000 * (p * 2));
                assert(f32_units(c) == 0xff_ffff * p);
            }
        } else {
            assert(b / 0x80_0000 == e && b % 0x80_0000 == m + 1);
            if e > 0 {
                let p = pow2((e - 1) as nat) as int;
                assert((m + 0x80_0000) * p <= (m + 1 + 0x80_0000) * p) by (nonlinear_arith)
                    requires
                        p >= 0,
                ;
            }
        }
    }
}

/// Only one code is nearest: rounding is a function of the value.
pub proof fn nearest_is_unique(x: int, a: int, b: int)
    requires
        is_nearest(x, a),
        is_nearest(x, b),
    ensures
        a == b,
{
    if a < b {
        two_apart(x, a, b);
    }
    if b < a {
        two_apart(x, b, a);
    }
}

/// Of two different codes, not both are nearest: two even ones have a third
/// between them.
proof fn two_apart(x: int, a: int, b: int)
    requires
        is_nearest(x, a),
        a < b <= E4M3_MAX_CODE,
    ensures
        !is_nearest(x, b),
{
    let va = e4m3_in_f32_units(a);
    let vb = e4m3_in_f32_units(b);
    let c = a + 1;
    let vc = e4m3_in_f32_units(c);
    units_increase(a, c);
    if c < b {
        units_increase(c, b);
    }
    lemma_pow2_pos(140);
    let p = pow2(140) as int;
    let (ua, uc, ub) = (e4m3_units(a), e4m3_units(c), e4m3_units(b));
    assert(ua * p < uc * p && (c < b ==> uc * p < ub * p)) by (nonlinear_arith)
        requires
            ua < uc,
            c < b ==> uc < ub,
            p > 0,
    ;
    assert(va < vc <= vb);
}

} // verus!
