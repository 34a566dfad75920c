use rvllm::arch::Build;
use rvllm::attention::prefill::{
    PagedPrefillFp8Launcher, PagedPrefillLauncher, PagedPrefillParams, UnifiedPrefillParams,
    UnifiedPrefillPtrs,
};
use rvllm::attention::{
    is_supported_head_dim, AttentionBackend, Fa2PtxKernels, Fa3Kernels, WorkspaceSize,
    SUPPORTED_HEAD_DIMS,
};
use rvllm::error::{AttentionError, RvllmError};
use rvllm::fused::launch_raw::{KernelArg, KernelArgs};
use rvllm::ids::F32Bits;
use rvllm::kernels::module::{KernelLoader, PtxFile, PtxImage};
use rvllm::symbols::{SoImage, Symbol, SymbolTable};

fn table(names: &[(&str, u64)]) -> SymbolTable {
    SymbolTable {
        entries: names.iter().map(|(n, a)| Symbol { name: n.to_string(), addr: *a }).collect(),
    }
}

fn hopper(prefill: bool) -> SymbolTable {
    let mut names = vec![
        ("fa3_sm90_workspace_size", 1),
        ("fa3_sm90_paged_decode", 2),
        ("fa3_sm90_paged_decode_fp8", 3),
    ];
    if prefill {
        names.push(("fa3_sm90_paged_prefill_fp8", 4));
    }
    table(&names)
}

fn params() -> PagedPrefillParams {
    PagedPrefillParams {
        num_tokens: 256,
        num_seqs: 4,
        num_heads: 28,
        num_kv_heads: 4,
        head_dim: 256,
        block_size: 64,
        max_blocks_per_seq: 33,
        num_blocks_total: 1024,
        scale: F32Bits((1.0 / (256f32).sqrt()).to_bits()),
        window_size_left: -1,
    }
}

fn ptrs() -> UnifiedPrefillPtrs {
    UnifiedPrefillPtrs {
        o_f16: 1,
        q_fp8: 2,
        k_cache_fp8: 3,
        v_cache_fp8: 4,
        k_scale_cache: 5,
        v_scale_cache: 6,
        q_scale_cache: 7,
        k_descale_fallback: 8,
        v_descale_fallback: 9,
        block_tables: 10,
        cu_seqlens_q: 11,
        context_lens: 12,
        q_descale_fallback: 13,
    }
}

fn tiling() -> UnifiedPrefillParams {
    UnifiedPrefillParams { num_queries_per_kv: 7, tile_size: 32, block_q: 2, use_mma: true }
}

const FA2_NAMES: [(&str, u64); 5] = [
    ("flash_attention_2_decode_kernel", 11),
    ("flash_attention_2_decode_f16io_kernel", 12),
    ("flash_attention_2_kernel", 13),
    ("flash_attention_2_f16kv_kernel", 14),
    ("flash_attention_2_decode_fp8kv_kernel", 15),
];

fn ptx(stem: &str, names: &[(&str, u64)]) -> PtxFile {
    PtxFile {
        stem: stem.to_string(),
        path: format!("/kernels/{stem}.ptx"),
        image: PtxImage::Loaded { raw: 9, symbols: table(names) },
    }
}

fn fa2(unified: bool) -> AttentionBackend {
    let mut files = vec![ptx("flash_attention", &FA2_NAMES)];
    if unified {
        files.push(ptx(
            "flash_attention_unified_prefill",
            &[("flash_attention_2_prefill_fp8kv_unified_kernel", 16)],
        ));
    }
    let loader = KernelLoader { files };
    AttentionBackend::from(Fa2PtxKernels::load(Build::Cuda, &loader, 256).unwrap())
}

#[test]
fn missing_so_rejected_at_load() {
    let err = Fa3Kernels::load("/nonexistent/libfa3_kernels.so".into(), 128, SoImage::Missing)
        .unwrap_err();
    let s = err.message();
    assert!(s.contains("Fa3SoMissing"));
}

#[test]
fn unsupported_head_dim_rejected() {
    // the file is there, so the missing-so check doesn't fire first
    let err = Fa3Kernels::load("fa3-fake.so".into(), 64, SoImage::OpenFailed).unwrap_err();
    let s = err.message();
    assert!(s.contains("UnsupportedHeadDim"));
}

#[test]
fn fa3_library_that_does_not_open() {
    let err = Fa3Kernels::load("fa3-fake.so".into(), 128, SoImage::OpenFailed).unwrap_err();
    match err {
        RvllmError::Attention { err: AttentionError::Fa3SoMissing { path }, ctx } => {
            assert_eq!((path.as_str(), ctx.op, ctx.head_dim), ("fa3-fake.so", "dlopen", 128));
        }
        other => panic!("{other:?}"),
    }
}

#[test]
fn fa3_entry_points() {
    let k = Fa3Kernels::load("x.so".into(), 128, SoImage::Open(hopper(true))).unwrap();
    let e = k.entries.unwrap();
    assert_eq!((e.workspace_size, e.paged_decode, e.paged_decode_fp8), (1, 2, 3));
    assert_eq!(e.paged_prefill_fp8, Some(4));
    let old = Fa3Kernels::load("x.so".into(), 128, SoImage::Open(hopper(false))).unwrap();
    assert_eq!(old.entries.unwrap().paged_prefill_fp8, None);
    let host = Fa3Kernels::load("x.so".into(), 128, SoImage::Unlinked).unwrap();
    assert_eq!(host.entries, None);
    assert_eq!(host.so_path, "x.so");
}

#[test]
fn fa3_ada_names_are_used_where_only_they_are_there() {
    let ada = [
        ("fa_sm89_workspace_size", 21),
        ("fa_sm89_paged_decode", 22),
        ("fa_sm89_paged_decode_fp8", 23),
    ];
    let k = Fa3Kernels::load("x.so".into(), 256, SoImage::Open(table(&ada))).unwrap();
    assert_eq!(k.entries.unwrap().paged_decode, 22);
    let mut both = hopper(true);
    both.entries.extend(table(&ada).entries);
    let k = Fa3Kernels::load("x.so".into(), 256, SoImage::Open(both)).unwrap();
    assert_eq!(k.entries.unwrap().paged_decode, 2);
}

#[test]
fn fa3_missing_entry_points() {
    for (n, op) in [
        (0, "dlsym:workspace_size"),
        (1, "dlsym:paged_decode"),
        (2, "dlsym:paged_decode_fp8"),
    ] {
        let mut t = hopper(true);
        t.entries.remove(n);
        match Fa3Kernels::load("x.so".into(), 512, SoImage::Open(t)) {
            Err(RvllmError::Attention { err: AttentionError::Fa3SoMissing { .. }, ctx }) => {
                assert_eq!(ctx.op, op);
            }
            other => panic!("{other:?}"),
        }
    }
}

#[test]
fn workspace_is_asked_of_the_library() {
    let k = Fa3Kernels::load("x.so".into(), 128, SoImage::Open(hopper(true))).unwrap();
    let backend = AttentionBackend::from(k);
    match backend.workspace_size(4, 28) {
        WorkspaceSize::Ask(q) => {
            assert_eq!((q.entry, q.batch_size, q.num_heads, q.max_num_splits), (1, 4, 28, 128));
            assert_eq!(q.answered(4096), 4096);
        }
        other => panic!("{other:?}"),
    }
    assert_eq!(backend.head_dim(), 128);
    let host = Fa3Kernels::load("x.so".into(), 512, SoImage::Unlinked).unwrap();
    assert_eq!(host.head_dim, 512);
    assert_eq!(host.workspace_size(4, 28), WorkspaceSize::Bytes(0));
    assert_eq!(fa2(true).workspace_size(4, 28), WorkspaceSize::Bytes(0));
    assert_eq!(fa2(true).head_dim(), 256);
}

#[test]
fn fa2_kernels() {
    match fa2(true) {
        AttentionBackend::Fa2Ptx(k) => {
            assert!(k.has_unified_prefill());
            let e = k.entries.unwrap();
            assert_eq!(e.flash_attention_mod.path(), "/kernels/flash_attention.ptx");
            assert_eq!(e.fn_decode.raw(), 11);
            assert_eq!(e.fn_decode_fp8kv.name(), "flash_attention_2_decode_fp8kv_kernel");
            assert_eq!(e.fn_prefill_fp8kv_unified.unwrap().raw(), 16);
        }
        other => panic!("{other:?}"),
    }
    match fa2(false) {
        AttentionBackend::Fa2Ptx(k) => assert!(!k.has_unified_prefill()),
        other => panic!("{other:?}"),
    }
}

#[test]
fn fa2_unified_module_without_its_kernel() {
    let loader = KernelLoader {
        files: vec![
            ptx("flash_attention", &FA2_NAMES),
            ptx("flash_attention_unified_prefill", &[]),
        ],
    };
    let k = Fa2PtxKernels::load(Build::Cuda, &loader, 512).unwrap();
    assert!(!k.has_unified_prefill());
    assert!(k.entries.unwrap().unified_prefill_mod.is_some());
}

#[test]
fn fa2_refusals() {
    let empty = KernelLoader { files: vec![] };
    assert!(Fa2PtxKernels::load(Build::Cuda, &empty, 64)
        .unwrap_err()
        .message()
        .contains("UnsupportedHeadDim"));
    assert!(matches!(
        Fa2PtxKernels::load(Build::Cuda, &empty, 128),
        Err(RvllmError::Loader { .. })
    ));
    let short = KernelLoader { files: vec![ptx("flash_attention", &FA2_NAMES[..3])] };
    match Fa2PtxKernels::load(Build::Cuda, &short, 128) {
        Err(RvllmError::Cuda { op, ctx, .. }) => {
            assert_eq!((op, ctx.kernel), ("cuModuleGetFunction", "flash_attention_2_f16kv_kernel"));
        }
        other => panic!("{other:?}"),
    }
    let host = Fa2PtxKernels::load(Build::Host, &empty, 128).unwrap();
    assert!(host.entries.is_none());
    assert!(!host.has_unified_prefill());
}

#[test]
fn supported_head_dims() {
    for d in 0..1024 {
        assert_eq!(is_supported_head_dim(d), SUPPORTED_HEAD_DIMS.contains(&d));
    }
}

#[test]
fn prefill_validates_head_dim() {
    let p = PagedPrefillParams {
        num_tokens: 256,
        num_seqs: 4,
        num_heads: 28,
        num_kv_heads: 4,
        head_dim: 64, // bad
        block_size: 64,
        max_blocks_per_seq: 33,
        num_blocks_total: 1024,
        scale: F32Bits(1.0f32.to_bits()),
        window_size_left: -1,
    };
    assert!(p.validate().is_err());
}

#[test]
fn prefill_accepts_head_dim_256() {
    let p = PagedPrefillParams {
        num_tokens: 256,
        num_seqs: 4,
        num_heads: 28,
        num_kv_heads: 4,
        head_dim: 256,
        block_size: 64,
        max_blocks_per_seq: 33,
        num_blocks_total: 1024,
        scale: F32Bits((1.0 / (256f32).sqrt()).to_bits()),
        window_size_left: -1,
    };
    assert!(p.validate().is_ok());
}

#[test]
fn prefill_validates_head_ratio() {
    for (heads, kv) in [(28, 0), (28, 3), (1, 2)] {
        let p = PagedPrefillParams { num_heads: heads, num_kv_heads: kv, ..params() };
        match p.validate() {
            Err(RvllmError::Attention {
                err: AttentionError::GqaRatioInvalid { num_heads, num_kv_heads },
                ctx,
            }) => {
                assert_eq!((num_heads, num_kv_heads), (heads, kv));
                assert_eq!(ctx.op, "paged_prefill.validate");
            }
            other => panic!("{other:?}"),
        }
    }
}

#[test]
fn half_precision_prefill_is_refused() {
    let fa3 = AttentionBackend::from(
        Fa3Kernels::load("x.so".into(), 128, SoImage::Open(hopper(true))).unwrap(),
    );
    for (b, name) in [(&fa2(true), "Fa2Ptx"), (&fa3, "Fa3")] {
        let l = PagedPrefillLauncher::new(b);
        match l.launch(params(), 1, 2, 3, 4, 5, 6, 7, 8, 9, 33) {
            Err(RvllmError::Attention {
                err: AttentionError::FeatureNotAvailable { backend, .. },
                ctx,
            }) => {
                assert_eq!(backend, name);
                assert_eq!((ctx.op, ctx.stream, ctx.head_dim), ("paged_prefill", 33, 256));
            }
            other => panic!("{other:?}"),
        }
        let bad = PagedPrefillParams { head_dim: 96, ..params() };
        match l.launch(bad, 1, 2, 3, 4, 5, 6, 7, 8, 9, 0) {
            Err(RvllmError::Attention {
                err: AttentionError::UnsupportedHeadDim { got, .. },
                ..
            }) => assert_eq!(got, 96),
            other => panic!("{other:?}"),
        }
    }
}

#[test]
fn unified_prefill_launch() {
    let backend = fa2(true);
    let l = PagedPrefillFp8Launcher::new(&backend);
    let u = l
        .launch_fp8kv_unified_sm121(Build::Cuda, params(), tiling(), ptrs(), 5)
        .unwrap();
    // 256 tokens in blocks of two rows, and one more block per sequence.
    assert_eq!(u.raw.grid, (132, 4, 1));
    assert_eq!(u.raw.block, (128, 1, 1));
    assert_eq!(u.raw.shared_mem_bytes, 48336);
    assert_eq!(u.max_dynamic_smem, None);
    assert_eq!((u.raw.stream, u.raw.kernel.raw()), (5, 16));
    match u.raw.args {
        KernelArgs::UnifiedPrefill(a) => {
            assert_eq!((a.out, a.q, a.k, a.v), (1, 2, 3, 4));
            assert_eq!((a.k_scale, a.v_scale, a.q_scale), (5, 6, 7));
            assert_eq!((a.tile_size, a.block_q, a.num_queries_per_kv, a.use_mma), (32, 2, 7, 1));
            assert_eq!((a.num_seqs, a.window_size_left), (4, -1));
        }
        other => panic!("{other:?}"),
    }
    let args = u.raw.args.list();
    assert_eq!(args.len(), 25);
    assert_eq!(args[0], KernelArg::Ptr(1));
    assert_eq!(args[13], KernelArg::F32(params().scale));
    assert!(u.finish(0).is_ok());
    assert!(u.finish(1).unwrap_err().message().contains("KernelLaunchFailed"));
}

#[test]
fn unified_prefill_asks_for_shared_memory_only_at_the_largest_head() {
    let backend = fa2(true);
    let l = PagedPrefillFp8Launcher::new(&backend);
    for (head_dim, tile_size, smem, ask) in
        [(128, 32, 25808, None), (256, 32, 48336, None), (512, 16, 76880, Some(76880))]
    {
        let p = PagedPrefillParams { head_dim, ..params() };
        let t = UnifiedPrefillParams { tile_size, ..tiling() };
        let u = l.launch_fp8kv_unified_sm121(Build::Cuda, p, t, ptrs(), 0).unwrap();
        assert_eq!(u.raw.shared_mem_bytes, smem);
        assert_eq!(u.max_dynamic_smem, ask);
        assert!(smem <= 99 * 1024);
    }
}

#[test]
fn unified_prefill_refusals() {
    let with = fa2(true);
    let without = fa2(false);
    let fa3 = AttentionBackend::from(
        Fa3Kernels::load("x.so".into(), 128, SoImage::Open(hopper(true))).unwrap(),
    );
    for (backend, build, wanted) in [
        (&with, Build::Host, "paged_prefill_fp8_unified (non-cuda build)"),
        (&without, Build::Cuda, "paged_prefill_fp8_unified (PTX module not loaded)"),
        (&fa3, Build::Cuda, "paged_prefill_fp8_unified (sm_121 only)"),
    ] {
        let l = PagedPrefillFp8Launcher::new(backend);
        match l.launch_fp8kv_unified_sm121(build, params(), tiling(), ptrs(), 0) {
            Err(RvllmError::Attention {
                err: AttentionError::FeatureNotAvailable { op, .. },
                ..
            }) => assert_eq!(op, wanted),
            other => panic!("{other:?}"),
        }
    }
    let bad = PagedPrefillParams { head_dim: 1, ..params() };
    let l = PagedPrefillFp8Launcher::new(&with);
    assert!(l.launch_fp8kv_unified_sm121(Build::Cuda, bad, tiling(), ptrs(), 0).is_err());
}

#[test]
fn fa3_prefill_call() {
    let fa3 = AttentionBackend::from(
        Fa3Kernels::load("x.so".into(), 128, SoImage::Open(hopper(true))).unwrap(),
    );
    let l = PagedPrefillFp8Launcher::new(&fa3);
    let call = l
        .launch(Build::Cuda, params(), 1, 2, 3, 4, 5, 6, 7, 8, 9, 10, 11, 64, 77)
        .unwrap()
        .unwrap();
    assert_eq!((call.entry, call.o_f16, call.q_fp8), (4, 1, 2));
    assert_eq!((call.total_q, call.max_seqlen_q, call.batch_size), (256, 64, 4));
    assert_eq!((call.stream, call.head_dim), (77, 256));
    assert!(call.finish(0).is_ok());
    match call.finish(-1) {
        Err(RvllmError::Attention { err: AttentionError::KernelLaunchFailed { .. }, ctx }) => {
            assert_eq!((ctx.op, ctx.stream, ctx.num_seqs), ("paged_prefill_fp8", 77, 4));
        }
        other => panic!("{other:?}"),
    }
    let host = l
        .launch(Build::Host, params(), 1, 2, 3, 4, 5, 6, 7, 8, 9, 10, 11, 64, 77)
        .unwrap();
    assert_eq!(host, None);
}

#[test]
fn fa3_prefill_refusals() {
    let old = AttentionBackend::from(
        Fa3Kernels::load("old.so".into(), 128, SoImage::Open(hopper(false))).unwrap(),
    );
    let l = PagedPrefillFp8Launcher::new(&old);
    match l.launch(Build::Cuda, params(), 1, 2, 3, 4, 5, 6, 7, 8, 9, 10, 11, 64, 0) {
        Err(RvllmError::Attention { err: AttentionError::Fa3SoMissing { path }, .. }) => {
            assert_eq!(path, "old.so");
        }
        other => panic!("{other:?}"),
    }
    let fa2 = fa2(true);
    let l = PagedPrefillFp8Launcher::new(&fa2);
    for build in [Build::Cuda, Build::Host] {
        match l.launch(build, params(), 1, 2, 3, 4, 5, 6, 7, 8, 9, 10, 11, 64, 0) {
            Err(RvllmError::Attention {
                err: AttentionError::FeatureNotAvailable { op, .. },
                ..
            }) => {
                assert_eq!(op, "paged_prefill_fp8 Fa2Ptx (use decode-per-qi loop)");
            }
            other => panic!("{other:?}"),
        }
    }
}
