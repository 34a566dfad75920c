use rvllm::error::{CudaErrorKind, RvllmError};
use rvllm::fused::fp8;
use rvllm::fused::gemma4_reference;
use rvllm::fused::launch_raw::{
    launch_raw, GeluMulArgs, KernelArg, KernelArgs, RopeF16KvArgs, ScaleArgs,
};
use rvllm::fused::reference::{argmax_ref, embedding_gather_ref};
use rvllm::ids::F32Bits;
use rvllm::kernels::module::KernelFn;

fn bits(v: &[f32]) -> Vec<F32Bits> {
    v.iter().map(|x| F32Bits(x.to_bits())).collect()
}

#[test]
fn argmax_returns_largest() {
    let logits = bits(&[0.1f32, 0.9, 0.3, 0.5, -1.0, 0.8]);
    let mut out = [0i32; 2];
    argmax_ref(&logits, 2, 3, &mut out);
    // row0 [0.1,0.9,0.3] → 1 (0.9); row1 [0.5,-1.0,0.8] → 2 (0.8)
    assert_eq!(out, [1, 2]);
}

#[test]
fn argmax_takes_the_first_of_equals() {
    let mut out = [9i32; 1];
    argmax_ref(&bits(&[-2.0, -1.0, -1.0, -3.0]), 1, 4, &mut out);
    assert_eq!(out, [1]);
    argmax_ref(&bits(&[0.0, -0.0, 0.0]), 1, 3, &mut out);
    assert_eq!(out, [0]);
    argmax_ref(&bits(&[1.0, f32::NAN, 2.0]), 1, 3, &mut out);
    assert_eq!(out, [2]);
    let mut none: [i32; 0] = [];
    argmax_ref(&[], 0, 5, &mut none);
}

#[test]
fn embedding_gather_picks_row() {
    // V=3 H=2
    let w = [10.0f32, 11.0, 20.0, 21.0, 30.0, 31.0];
    let ids = [2u32, 0];
    let mut out = [0f32; 4];
    embedding_gather_ref(&ids, &w, 2, 3, &mut out);
    assert_eq!(&out[..2], &[30.0, 31.0]);
    assert_eq!(&out[2..], &[10.0, 11.0]);
}

/// The value of an FP8 E4M3 code.
fn e4m3(code: u8) -> f64 {
    let sign = if code & 0x80 != 0 { -1.0 } else { 1.0 };
    let e = ((code >> 3) & 15) as i32;
    let m = (code & 7) as f64;
    let magnitude = if e == 0 {
        m * 2f64.powi(-9)
    } else {
        (8.0 + m) * 2f64.powi(e - 10)
    };
    sign * magnitude
}

fn rounded(x: f32) -> u8 {
    fp8::f32_to_fp8_e4m3(F32Bits(x.to_bits()))
}

#[test]
fn every_fp8_value_converts_to_itself() {
    for code in 0u8..=0x7e {
        let v = e4m3(code) as f32;
        assert_eq!(rounded(v), code);
        if code != 0 {
            assert_eq!(rounded(-v), code | 0x80);
        }
    }
}

#[test]
fn fp8_rounds_to_nearest_and_ties_to_even() {
    for code in 0u8..0x7e {
        let (a, b) = (e4m3(code), e4m3(code + 1));
        let mid = (a + b) / 2.0;
        let even = if code % 2 == 0 { code } else { code + 1 };
        assert_eq!(rounded(mid as f32), even);
        assert_eq!(rounded((mid - (b - a) / 64.0) as f32), code);
        assert_eq!(rounded((mid + (b - a) / 64.0) as f32), code + 1);
    }
}

#[test]
fn fp8_saturates() {
    assert_eq!(rounded(448.0), 0x7e);
    assert_eq!(rounded(449.0), 0x7e);
    assert_eq!(rounded(f32::MAX), 0x7e);
    assert_eq!(rounded(f32::INFINITY), 0x7e);
    assert_eq!(rounded(-1e9), 0xfe);
    assert_eq!(rounded(f32::NEG_INFINITY), 0xfe);
    assert_eq!(rounded(f32::NAN) & 0x7f, 0x7e);
    assert_eq!(rounded(0.0), 0);
    assert_eq!(rounded(-0.0), 0);
    assert_eq!(rounded(1e-30), 0);
    assert_eq!(rounded(-1e-30), 0x80);
    assert_eq!(rounded(f32::from_bits(1)), 0);
}

fn truncated(x: f32) -> u8 {
    gemma4_reference::f32_to_fp8_e4m3(F32Bits(x.to_bits()))
}

#[test]
fn gemma4_conversion_truncates() {
    assert_eq!(truncated(1.0), 0x38);
    assert_eq!(truncated(1.124), 0x38);
    assert_eq!(truncated(1.125), 0x39);
    assert_eq!(truncated(-2.49), 0xc1);
    assert_eq!(truncated(255.9), 0x77);
    assert_eq!(truncated(256.0), 0x7e);
    assert_eq!(truncated(448.0), 0x7e);
    assert_eq!(truncated(1000.0), 0x7e);
    assert_eq!(truncated(-1000.0), 0xfe);
    assert_eq!(truncated(f32::INFINITY), 0x7e);
    assert_eq!(truncated(f32::NAN), 0x7f);
    assert_eq!(truncated(0.0), 0);
    assert_eq!(truncated(-0.0), 0);
    assert_eq!(truncated(2f32.powi(-6)), 0x08);
    assert_eq!(truncated(2f32.powi(-7)), 0x02);
    assert_eq!(truncated(-(2f32.powi(-8))), 0x81);
    assert_eq!(truncated(2f32.powi(-9)), 0x00);
}

fn kernel() -> KernelFn {
    KernelFn { raw: 3, name: "k" }
}

#[test]
fn raw_launch_arguments_in_order() {
    let scale = launch_raw(
        kernel(),
        (4, 1, 1),
        (256, 1, 1),
        0,
        8,
        KernelArgs::Scale(ScaleArgs { data: 1, scale: 2, m: 3, n: 4 }),
    );
    assert_eq!(
        scale.args.list(),
        vec![KernelArg::Ptr(1), KernelArg::Ptr(2), KernelArg::I32(3), KernelArg::I32(4)]
    );
    assert_eq!((scale.grid, scale.block, scale.stream), ((4, 1, 1), (256, 1, 1), 8));
    let gelu = KernelArgs::GeluMul(GeluMulArgs { out: 1, inp: 2, intermediate: 5 });
    assert_eq!(
        gelu.list(),
        vec![KernelArg::Ptr(1), KernelArg::Ptr(2), KernelArg::I32(5)]
    );
    let rope = KernelArgs::RopeF16Kv(RopeF16KvArgs {
        q_in: 1,
        k_in: 2,
        v_in: 3,
        q_out: 4,
        k_cache: 5,
        v_cache: 6,
        cos: 7,
        sin: 8,
        positions: 9,
        slot_mapping: 10,
        num_tokens: 11,
        num_heads: 12,
        num_kv_heads: 13,
        head_dim: 14,
        rotary_dim: 15,
    });
    let list = rope.list();
    assert_eq!(list.len(), 15);
    for (i, a) in list.iter().enumerate() {
        let n = i as u64 + 1;
        assert_eq!(
            *a,
            if n <= 10 { KernelArg::Ptr(n) } else { KernelArg::I32(n as i32) }
        );
    }
}

#[test]
fn raw_launch_outcomes() {
    let l = launch_raw(
        kernel(),
        (1, 2, 3),
        (32, 1, 1),
        64,
        8,
        KernelArgs::GeluMul(GeluMulArgs { out: 1, inp: 2, intermediate: 5 }),
    );
    assert!(l.finish(Some(0)).is_ok());
    match l.finish(Some(719)) {
        Err(RvllmError::Cuda { kind: CudaErrorKind::LaunchFailed, ctx, .. }) => {
            let launch = ctx.launch.unwrap();
            assert_eq!((launch.grid, launch.block, launch.smem), ((1, 2, 3), (32, 1, 1), 64));
            assert_eq!((ctx.stream, ctx.kernel), (8, "k"));
        }
        other => panic!("{other:?}"),
    }
    assert!(l.finish(None).is_ok());
}
