use rvllm::arch::Build;
use rvllm::attention::{AttentionBackend, Fa2PtxKernels};
use rvllm::cutlass::lib_so::{CutlassBackend, CutlassLib, CutlassSm120Lib, SizeOf};
use rvllm::error::{AttentionError, RvllmError};
use rvllm::fused::launch_raw::KernelArgs;
use rvllm::ids::F32Bits;
use rvllm::kernels::module::{KernelFn, KernelLoader, PtxFile, PtxImage};
use rvllm::runtime::gemma4_layer_exec::{
    fp8_gemm_channelscale_or_fallback, gemma4_forward, gemma4_forward_phase,
    launch_scale_cols_f32, layer_sf_queries, logit_softcap, rope_f16kv, rope_fp8kv,
    ChannelscaleGemm, Gemma4LayerDims, Gemma4LayerKernels, Gemma4LayerScratch, Gemma4LayerType,
    Gemma4LayerWeightPtrs, Gemma4MetadataPtrs, Gemma4Phase, LayerEnv, LayerSfBytes, SfBytes,
};
use rvllm::runtime::layer_ops::{counting, LayerOp};
use rvllm::symbols::{SoImage, Symbol, SymbolTable};

fn table(names: &[(&str, u64)]) -> SymbolTable {
    SymbolTable {
        entries: names.iter().map(|(n, a)| Symbol { name: n.to_string(), addr: *a }).collect(),
    }
}

fn k(raw: u64, name: &'static str) -> KernelFn {
    KernelFn { raw, name }
}

fn kernels(gemv: bool) -> Gemma4LayerKernels {
    Gemma4LayerKernels {
        fused_rmsnorm: k(1, "fused_rmsnorm"),
        fused_rmsnorm_fp8_quant: k(2, "fused_rmsnorm_fp8_quant"),
        fused_qk_rmsnorm: k(3, "fused_qk_rmsnorm"),
        fused_rope_partial_fp8kv: k(4, "fused_rope_partial_fp8kv"),
        fused_gelu_mul: k(5, "fused_gelu_mul"),
        quantize_fp8_per_token: k(6, "quantize_fp8_per_token"),
        residual_scale_f16: k(7, "residual_scale_f16"),
        vnorm_f16: k(8, "vnorm_f16"),
        vector_add_f16: k(9, "vector_add_f16"),
        bf16_to_f16_sat: k(10, "bf16_to_f16_sat"),
        rmsnorm_inplace_bf16: k(11, "rmsnorm_inplace_bf16"),
        vector_add_bf16_to_f16: k(12, "vector_add_bf16_to_f16"),
        f32_to_bf16: k(13, "f32_to_bf16"),
        f32_to_f16_sat: k(14, "f32_to_f16_sat"),
        scale_cols_f32: k(15, "scale_cols_f32"),
        scale_rows_f32_ratio: k(16, "scale_rows_f32_ratio"),
        compute_qkv_scales: k(17, "compute_qkv_scales"),
        fused_gelu_mul_f16: k(18, "fused_gelu_mul_f16"),
        fused_rope_partial_f16kv: k(19, "fused_rope_partial_f16kv"),
        fused_norm_add_residual: k(20, "fused_norm_add_residual"),
        fused_norm_add_residual_f16: k(21, "fused_norm_add_residual_f16"),
        fused_norm_add_residual_f16in: k(22, "fused_norm_add_residual_f16in"),
        fused_qkv_rmsnorm: k(23, "fused_qkv_rmsnorm"),
        scale_cols_f16: k(24, "scale_cols_f16"),
        fp8_gemv_wpr_native_f16in: if gemv { Some(k(25, "gemv")) } else { None },
    }
}

fn dims(num_tokens: u32) -> Gemma4LayerDims {
    Gemma4LayerDims {
        num_tokens,
        hidden: 64,
        num_heads: 4,
        num_kv_heads: 2,
        head_dim: 128,
        rotary_dim: 32,
        intermediate: 96,
        block_size: 16,
        max_blocks_per_seq: 8,
        num_blocks_total: 64,
        attn_scale: F32Bits(1.0f32.to_bits()),
        rms_eps: F32Bits(1e-6f32.to_bits()),
        layer_type: Gemma4LayerType::GlobalAttention,
        sliding_window: 1024,
        f16_kv: false,
    }
}

/// FP8 weights with one scale each.
fn weights() -> Gemma4LayerWeightPtrs {
    Gemma4LayerWeightPtrs {
        attn_norm_gamma: 101,
        post_attn_norm_gamma: 102,
        pre_ff_norm_gamma: 103,
        post_ff_norm_gamma: 104,
        q_norm_gamma: 105,
        k_norm_gamma: 106,
        qkv_fp8: 107,
        qkv_scale: 108,
        o_fp8: 109,
        o_scale: 110,
        gate_up_fp8: 111,
        gate_up_scale: 112,
        down_fp8: 113,
        down_scale: 114,
        layer_scalar_ptr: 115,
        qkv_f16: 0,
        o_f16: 0,
        gate_up_f16: 0,
        down_f16: 0,
        qkv_chscale: 0,
        o_chscale: 0,
        gate_up_chscale: 0,
        down_chscale: 0,
        qkv_blockscale: 0,
        o_blockscale: 0,
        gate_up_blockscale: 0,
        down_blockscale: 0,
    }
}

fn channel_scaled() -> Gemma4LayerWeightPtrs {
    Gemma4LayerWeightPtrs {
        qkv_chscale: 121,
        o_chscale: 122,
        gate_up_chscale: 123,
        down_chscale: 124,
        ..weights()
    }
}

fn block_scaled() -> Gemma4LayerWeightPtrs {
    Gemma4LayerWeightPtrs {
        qkv_blockscale: 131,
        o_blockscale: 132,
        gate_up_blockscale: 133,
        down_blockscale: 134,
        ..channel_scaled()
    }
}

fn half_weights() -> Gemma4LayerWeightPtrs {
    Gemma4LayerWeightPtrs {
        qkv_f16: 141,
        o_f16: 142,
        gate_up_f16: 143,
        down_f16: 144,
        ..weights()
    }
}

fn scratch() -> Gemma4LayerScratch {
    Gemma4LayerScratch {
        hidden_fp8: 201,
        hidden_scale: 202,
        q_out: 10_000,
        k_out: 20_000,
        v_out: 30_000,
        q_normed: 206,
        k_normed: 207,
        v_normed: 208,
        q_fp8: 40_000,
        k_cache: 210,
        v_cache: 211,
        q_scale_ptr: 212,
        kv_scale_ptr: 213,
        k_scale_cache: 214,
        v_scale_cache: 215,
        q_scale_cache: 50_000,
        attn_out: 60_000,
        attn_out_fp8: 218,
        attn_out_scale: 219,
        delta_f16: 220,
        gate_up_out: 221,
        gate_up_fp8: 222,
        gate_up_scale: 223,
        mlp_out_fp8: 224,
        mlp_out_scale: 225,
        gemm_f32_tmp: 1_000_000,
        cutlass_workspace: 227,
        cutlass_workspace_bytes: 4096,
        fa3_workspace: 228,
    }
}

fn meta() -> Gemma4MetadataPtrs {
    Gemma4MetadataPtrs {
        positions: 301,
        slot_mapping: 302,
        cos: 303,
        sin: 304,
        block_tables: 305,
        context_lens: 306,
    }
}

fn env() -> LayerEnv {
    LayerEnv { unified_prefill: None, unified_prefill_mma: None, fp8_gemm_cutlass_sm120: None }
}

fn no_scratch() -> LayerSfBytes {
    let none = SfBytes { sfa: 0, sfb: 0 };
    LayerSfBytes { qkv: none, o: none, gate_up: none, down: none }
}

fn fa2(unified: bool) -> AttentionBackend {
    let ptx = |stem: &str, names: &[(&str, u64)]| PtxFile {
        stem: stem.to_string(),
        path: format!("/kernels/{stem}.ptx"),
        image: PtxImage::Loaded { raw: 9, symbols: table(names) },
    };
    let mut files = vec![ptx(
        "flash_attention",
        &[
            ("flash_attention_2_decode_kernel", 11),
            ("flash_attention_2_decode_f16io_kernel", 12),
            ("flash_attention_2_kernel", 13),
            ("flash_attention_2_f16kv_kernel", 14),
            ("flash_attention_2_decode_fp8kv_kernel", 15),
        ],
    )];
    if unified {
        files.push(ptx(
            "flash_attention_unified_prefill",
            &[("flash_attention_2_prefill_fp8kv_unified_kernel", 16)],
        ));
    }
    AttentionBackend::from(
        Fa2PtxKernels::load(Build::Cuda, &KernelLoader { files }, 128).unwrap(),
    )
}

fn sm120() -> CutlassBackend {
    let t = table(&[
        ("cutlass_fp8_gemm_blockscale_sm120", 1),
        ("cutlass_fp8_gemm_blockscale_sm120_workspace", 2),
        ("cutlass_fp8_gemm_blockscale_sm120_sfa_bytes", 3),
        ("cutlass_fp8_gemm_blockscale_sm120_sfb_bytes", 4),
        ("cutlass_fp8_gemm_blockscale_sm120_prep_sfa", 5),
        ("cutlass_fp8_gemm_blockscale_sm120_prep_sfb", 6),
    ]);
    CutlassBackend::SoSm120(CutlassSm120Lib::load("s.so".into(), SoImage::Open(t)).unwrap())
}

/// The name of an operation.
fn name(op: &LayerOp) -> &'static str {
    match op {
        LayerOp::CopyDtoD { .. } => "copy",
        LayerOp::UploadCounting { .. } => "count",
        LayerOp::RmsnormFp8Quant { .. } => "norm+quant",
        LayerOp::RmsnormInplace { .. } => "norm",
        LayerOp::F16GemmF32 { .. } => "f16gemm",
        LayerOp::CastToF16 { .. } => "cast",
        LayerOp::Fp8GemvF16In { .. } => "gemv",
        LayerOp::Fp8Gemm(_) => "fp8gemm",
        LayerOp::Fp8GemmF32(_) => "fp8gemm32",
        LayerOp::QkvRmsnorm(_) => "qkvnorm",
        LayerOp::RopePartialFp8Kv(_) => "rope8",
        LayerOp::Raw(r) => r.kernel.name(),
        LayerOp::PagedDecode(_) => "decode16",
        LayerOp::PagedDecodeFp8(_) => "decode8",
        LayerOp::UnifiedPrefill(_) => "unified",
        LayerOp::QuantizeFp8PerToken(_) => "quant",
        LayerOp::NormAddResidual(_) => "normadd32",
        LayerOp::NormAddResidualF16In(_) => "normadd16",
        LayerOp::GeluMulFp8Quant(_) => "gelu8",
        LayerOp::CutlassPrep(_) => "prep",
        LayerOp::CutlassGemm(_) => "cutlass",
        LayerOp::LogitSoftcap { .. } => "softcap",
    }
}

struct Case {
    build: Build,
    dims: Gemma4LayerDims,
    gemv: bool,
    weights: Gemma4LayerWeightPtrs,
    cutlass: CutlassBackend,
    attention: AttentionBackend,
    env: LayerEnv,
    sf: LayerSfBytes,
    phase: Gemma4Phase,
}

fn case(tokens: u32, weights: Gemma4LayerWeightPtrs) -> Case {
    Case {
        build: Build::Cuda,
        dims: dims(tokens),
        gemv: false,
        weights,
        cutlass: CutlassBackend::Absent,
        attention: fa2(true),
        env: env(),
        sf: no_scratch(),
        phase: Gemma4Phase::Decode,
    }
}

fn plan(c: &Case) -> (Vec<LayerOp>, Result<(), RvllmError>) {
    let mut ops = Vec::new();
    let r = gemma4_forward_phase(
        c.build,
        c.dims,
        &kernels(c.gemv),
        &c.weights,
        &scratch(),
        &meta(),
        &c.cutlass,
        &c.attention,
        &c.attention,
        &c.env,
        c.sf,
        777,
        9,
        c.phase,
        &mut ops,
    );
    (ops, r)
}

fn names(c: &Case) -> Vec<&'static str> {
    let (ops, r) = plan(c);
    r.unwrap();
    ops.iter().map(name).collect()
}

const PREFILL: Gemma4Phase =
    Gemma4Phase::Prefill { cu_seqlens_q: 70_000, max_seqlen_q: 3, num_seqs: 1 };

#[test]
fn decode_with_scalar_scales() {
    assert_eq!(
        names(&case(4, weights())),
        vec![
            "norm+quant", "fp8gemm", "qkvnorm", "rope8", "decode8", "quant", "fp8gemm32",
            "normadd32", "norm+quant", "fp8gemm", "gelu8", "fp8gemm32", "normadd32",
        ]
    );
}

#[test]
fn decode_with_channel_scales() {
    // More than one row: the row scales are made right before the columns.
    let projection = ["fp8gemm32", "scale_rows_f32_ratio", "scale_cols_f32", "cast"];
    let mut wanted = vec!["norm+quant"];
    wanted.extend(projection);
    wanted.extend(["qkvnorm", "rope8", "decode8", "quant"]);
    wanted.extend(projection);
    wanted.extend(["normadd16", "norm+quant"]);
    wanted.extend(projection);
    wanted.push("gelu8");
    wanted.extend(projection);
    wanted.push("normadd16");
    assert_eq!(names(&case(4, channel_scaled())), wanted);
    // One row needs no ratio.
    assert!(!names(&case(1, channel_scaled())).contains(&"scale_rows_f32_ratio"));
}

#[test]
fn decode_with_the_row_by_row_kernel() {
    let c = Case { gemv: true, ..case(1, block_scaled()) };
    assert_eq!(
        names(&c),
        vec![
            "copy", "norm", "gemv", "qkvnorm", "rope8", "decode8", "gemv", "normadd16", "copy",
            "norm", "gemv", "fused_gelu_mul_f16", "gemv", "normadd16",
        ]
    );
    // Up to sixteen rows the later projections keep it; the first one does not.
    let c = Case { gemv: true, ..case(16, block_scaled()) };
    let n = names(&c);
    assert_eq!(n.iter().filter(|x| **x == "gemv").count(), 3);
    assert_eq!(n[0], "norm+quant");
    let c = Case { gemv: true, ..case(17, block_scaled()) };
    assert!(!names(&c).contains(&"gemv"));
}

#[test]
fn row_scales_never_stand_in_for_block_scales() {
    let c = Case { gemv: true, ..case(1, channel_scaled()) };
    assert!(!names(&c).contains(&"gemv"));
    let (ops, _) = plan(&Case { gemv: true, ..case(1, block_scaled()) });
    let scales: Vec<u64> = ops
        .iter()
        .filter_map(|op| match op {
            LayerOp::Fp8GemvF16In { blockscale, .. } => Some(*blockscale),
            _ => None,
        })
        .collect();
    assert_eq!(scales, vec![131, 132, 133, 134]);
}

#[test]
fn decode_with_half_precision_weights() {
    let c = Case { dims: Gemma4LayerDims { f16_kv: true, ..dims(2) }, ..case(2, half_weights()) };
    let (ops, r) = plan(&c);
    r.unwrap();
    assert_eq!(
        ops.iter().map(name).collect::<Vec<_>>(),
        vec![
            "norm+quant", "copy", "norm", "f16gemm", "cast", "qkvnorm",
            "fused_rope_partial_f16kv", "decode16", "f16gemm", "normadd32", "norm+quant", "copy",
            "norm", "f16gemm", "cast", "fused_gelu_mul_f16", "f16gemm", "normadd32",
        ]
    );
    // The last operation closes the layer with its scalar, the middle one does not.
    let scalars: Vec<u64> = ops
        .iter()
        .filter_map(|op| match op {
            LayerOp::NormAddResidual(n) => Some(n.layer_scalar),
            _ => None,
        })
        .collect();
    assert_eq!(scalars, vec![0, 115]);
}

#[test]
fn layer_scalar_is_applied_once_on_every_path() {
    for (w, gemv) in [
        (weights(), false),
        (channel_scaled(), false),
        (block_scaled(), true),
        (half_weights(), false),
    ] {
        let (ops, r) = plan(&Case { gemv, ..case(2, w) });
        r.unwrap();
        let scaled = ops
            .iter()
            .filter(|op| match op {
                LayerOp::NormAddResidual(n) | LayerOp::NormAddResidualF16In(n) => {
                    n.layer_scalar != 0
                }
                _ => false,
            })
            .count();
        assert_eq!(scaled, 1);
    }
}

#[test]
fn prefill_in_one_launch() {
    let c = Case { phase: PREFILL, ..case(3, weights()) };
    let (ops, r) = plan(&c);
    r.unwrap();
    assert_eq!(
        ops.iter().map(name).collect::<Vec<_>>()[2..6],
        ["qkvnorm", "rope8", "unified", "quant"]
    );
    match ops[4] {
        LayerOp::UnifiedPrefill(u) => {
            // Two query heads per KV head share sixteen rows: eight tokens a block.
            assert_eq!(u.raw.grid, (2, 2, 1));
            match u.raw.args {
                KernelArgs::UnifiedPrefill(a) => {
                    assert_eq!((a.block_q, a.num_queries_per_kv, a.tile_size), (8, 2, 32));
                    assert_eq!((a.cu_seqlens_q, a.use_mma, a.window_size_left), (70_000, 0, -1));
                }
                other => panic!("{other:?}"),
            }
        }
        other => panic!("{other:?}"),
    }
    let mma = Case {
        phase: PREFILL,
        env: LayerEnv { unified_prefill_mma: Some("1".to_string()), ..env() },
        ..case(3, weights())
    };
    match plan(&mma).0[4] {
        LayerOp::UnifiedPrefill(u) => match u.raw.args {
            KernelArgs::UnifiedPrefill(a) => assert_eq!(a.use_mma, 1),
            other => panic!("{other:?}"),
        },
        other => panic!("{other:?}"),
    }
}

#[test]
fn prefill_token_by_token() {
    for c in [
        Case { phase: PREFILL, attention: fa2(false), ..case(3, weights()) },
        Case {
            phase: PREFILL,
            env: LayerEnv { unified_prefill: Some("0".to_string()), ..env() },
            ..case(3, weights())
        },
    ] {
        let (ops, r) = plan(&c);
        r.unwrap();
        assert_eq!(
            ops.iter().map(name).collect::<Vec<_>>()[3..9],
            ["rope8", "count", "decode8", "decode8", "decode8", "quant"]
        );
        match ops[4] {
            LayerOp::UploadCounting { dst, upto } => assert_eq!((dst, upto), (70_000, 3)),
            other => panic!("{other:?}"),
        }
        for qi in 0..3u64 {
            match ops[5 + qi as usize] {
                LayerOp::PagedDecodeFp8(d) => {
                    assert_eq!(d.params.num_seqs, 1);
                    assert_eq!(d.out, 60_000 + qi * 1024);
                    assert_eq!(d.q_fp8, 40_000 + qi * 512);
                    assert_eq!(d.q_scale_cache, 50_000 + qi * 16);
                    assert_eq!(d.context_lens, 70_000 + qi * 4);
                }
                other => panic!("{other:?}"),
            }
        }
    }
    assert_eq!(counting(3), vec![1, 2, 3]);
    assert!(counting(0).is_empty() && counting(-4).is_empty());
}

#[test]
fn refused_prefill_issues_what_came_before() {
    let c = Case {
        phase: PREFILL,
        dims: Gemma4LayerDims { num_heads: 3, ..dims(3) },
        ..case(3, weights())
    };
    let (ops, r) = plan(&c);
    match r {
        Err(RvllmError::Attention { err: AttentionError::GqaRatioInvalid { .. }, .. }) => {}
        other => panic!("{other:?}"),
    }
    assert_eq!(
        ops.iter().map(name).collect::<Vec<_>>(),
        vec!["norm+quant", "fp8gemm", "qkvnorm", "rope8"]
    );
}

#[test]
fn blockwise_projections() {
    let sf = SfBytes { sfa: 100, sfb: 200 };
    let sf = LayerSfBytes { qkv: sf, o: sf, gate_up: sf, down: sf };
    let large = |sf, env| Case { cutlass: sm120(), sf, env, ..case(128, block_scaled()) };
    let (ops, r) = plan(&large(sf, env()));
    r.unwrap();
    let n: Vec<_> = ops.iter().map(name).collect();
    assert_eq!(n[1..4], ["prep", "prep", "cutlass"]);
    assert_eq!(n.iter().filter(|x| **x == "cutlass").count(), 4);
    match (&ops[1], &ops[2], &ops[3]) {
        (LayerOp::CutlassPrep(a), LayerOp::CutlassPrep(b), LayerOp::CutlassGemm(g)) => {
            assert_eq!((a.entry, a.src, a.dst), (5, 202, 1_000_000));
            // The second scratch starts at the next multiple of sixteen.
            assert_eq!((b.entry, b.src, b.dst), (6, 131, 1_000_112));
            assert_eq!((g.a_scale, g.b_scale), (1_000_000, 1_000_112));
            assert_eq!((g.m, g.n, g.k), (128, 1024, 64));
        }
        other => panic!("{other:?}"),
    }
    // Too small, switched off, no scratch, or no block scales: not taken.
    let small = Case { cutlass: sm120(), sf, ..case(127, block_scaled()) };
    let off = LayerEnv { fp8_gemm_cutlass_sm120: Some("0".to_string()), ..env() };
    let bare = Case { cutlass: sm120(), sf, ..case(128, channel_scaled()) };
    for c in [small, large(sf, off), large(no_scratch(), env()), bare] {
        assert!(!names(&c).contains(&"cutlass"));
    }
}

#[test]
fn hopper_projections_go_to_the_library() {
    let t = table(&[("cutlass_fp8_gemm_channelscale", 5)]);
    let lib = CutlassLib::load("c.so".into(), SoImage::Open(t), &vec![]).unwrap();
    let c = Case { cutlass: CutlassBackend::from(lib), ..case(4, channel_scaled()) };
    let (ops, r) = plan(&c);
    r.unwrap();
    assert_eq!(ops.iter().filter(|op| name(op) == "cutlass").count(), 4);
    match ops[1] {
        LayerOp::CutlassGemm(g) => assert_eq!((g.entry, g.a_scale, g.b_scale), (5, 202, 121)),
        other => panic!("{other:?}"),
    }
    // Without the entry point the layer stops there.
    let lib = CutlassLib::load("c.so".into(), SoImage::Open(table(&[])), &vec![]).unwrap();
    let c = Case { cutlass: CutlassBackend::from(lib), ..case(4, channel_scaled()) };
    let (ops, r) = plan(&c);
    assert!(r.is_err());
    assert_eq!(ops.len(), 1);
}

#[test]
fn scalar_fallback_of_a_channel_scaled_gemm() {
    let g = ChannelscaleGemm {
        output_f16: 1,
        a_fp8: 2,
        b_fp8: 3,
        a_scale: 4,
        b_chscale: 0,
        b_blockscale: 0,
        b_scale_scalar: 7,
        m: 8,
        n: 9,
        k: 10,
        scratch_f32: 11,
        cutlass_workspace: 12,
        cutlass_workspace_bytes: 13,
    };
    let mut ops = Vec::new();
    fp8_gemm_channelscale_or_fallback(
        &CutlassBackend::Absent,
        &kernels(false),
        g,
        true,
        SfBytes { sfa: 0, sfb: 0 },
        0,
        &mut ops,
    )
    .unwrap();
    match ops[..] {
        [LayerOp::Fp8Gemm(l)] => {
            assert_eq!((l.a, l.b, l.out, l.a_scale, l.b_scale), (2, 3, 1, 4, 7));
            assert_eq!((l.m, l.n, l.k), (8, 9, 10));
        }
        _ => panic!("{ops:?}"),
    }
}

#[test]
fn host_build_checks_without_launching() {
    let c = Case { build: Build::Host, ..case(4, block_scaled()) };
    assert_eq!(names(&c), vec!["norm+quant", "qkvnorm", "quant", "norm+quant"]);
}

#[test]
fn decode_is_the_default_phase() {
    let c = case(4, channel_scaled());
    let mut ops = Vec::new();
    gemma4_forward(
        c.build,
        c.dims,
        &kernels(c.gemv),
        &c.weights,
        &scratch(),
        &meta(),
        &c.cutlass,
        &c.attention,
        &c.attention,
        &c.env,
        c.sf,
        777,
        9,
        &mut ops,
    )
    .unwrap();
    assert_eq!(ops.iter().map(name).collect::<Vec<_>>(), names(&c));
}

#[test]
fn sliding_layers_see_a_window() {
    let c = Case {
        dims: Gemma4LayerDims { layer_type: Gemma4LayerType::SlidingAttention, ..dims(4) },
        ..case(4, weights())
    };
    match plan(&c).0[4] {
        LayerOp::PagedDecodeFp8(d) => assert_eq!(d.params.window_size_left, 1023),
        other => panic!("{other:?}"),
    }
    match plan(&case(4, weights())).0[4] {
        LayerOp::PagedDecodeFp8(d) => assert_eq!(d.params.window_size_left, -1),
        other => panic!("{other:?}"),
    }
}

#[test]
fn rope_operands() {
    let r = rope_f16kv(dims(4), &kernels(false), &scratch(), &meta(), 9);
    assert_eq!((r.kernel.raw(), r.stream), (19, 9));
    match r.args {
        KernelArgs::RopeF16Kv(a) => {
            assert_eq!((a.num_tokens, a.num_heads, a.head_dim, a.rotary_dim), (4, 4, 128, 32));
            assert_eq!((a.cos, a.sin, a.positions, a.slot_mapping), (303, 304, 301, 302));
        }
        other => panic!("{other:?}"),
    }
    match rope_fp8kv(dims(4), &kernels(false), &scratch(), &meta()) {
        LayerOp::RopePartialFp8Kv(p) => {
            assert_eq!((p.kernel.raw(), p.q_fp8, p.k_cache, p.v_cache), (4, 40_000, 210, 211));
            assert_eq!((p.q_scale, p.q_scale_cache), (212, 50_000));
        }
        other => panic!("{other:?}"),
    }
}

#[test]
fn scaling_launches() {
    let l = launch_scale_cols_f32(k(15, "s"), 1, 2, 3, 100, 9);
    assert_eq!((l.grid, l.block), ((2, 1, 1), (256, 1, 1)));
    let exact = launch_scale_cols_f32(k(15, "s"), 1, 2, 2, 128, 9);
    assert_eq!(exact.grid, (1, 1, 1));
}

#[test]
fn scale_scratch_questions() {
    let q = layer_sf_queries(&dims(4), &sm120());
    let ask = |entry, outer, inner| SizeOf::AskScales { entry, outer, inner };
    assert_eq!((q.qkv.sfa, q.qkv.sfb), (ask(3, 4, 64), ask(4, 1024, 64)));
    assert_eq!((q.o.sfa, q.o.sfb), (ask(3, 4, 512), ask(4, 64, 512)));
    assert_eq!((q.gate_up.sfa, q.gate_up.sfb), (ask(3, 4, 64), ask(4, 192, 64)));
    assert_eq!((q.down.sfa, q.down.sfb), (ask(3, 4, 96), ask(4, 64, 96)));
    let none = layer_sf_queries(&dims(4), &CutlassBackend::Absent);
    assert_eq!((none.qkv.sfa, none.down.sfb), (SizeOf::Bytes(0), SizeOf::Bytes(0)));
}

#[test]
fn softcap_operands() {
    match logit_softcap(k(30, "cap"), 5, 6, 7, F32Bits(30.0f32.to_bits())) {
        LayerOp::LogitSoftcap { kernel, num_tokens, vocab, cap, logits } => {
            assert_eq!((kernel.raw(), num_tokens, vocab, logits), (30, 6, 7, 5));
            assert_eq!(f32::from_bits(cap.0), 30.0);
        }
        other => panic!("{other:?}"),
    }
}
