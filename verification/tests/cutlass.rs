use rvllm::arch::{Build, CompileTarget};
use rvllm::cutlass::lib_so::{
    resolve_sm120_so_path, sm120_sibling, v2_symbol_names, CutlassBackend, CutlassLib, CutlassSm120Lib,
    CutlassSource, SizeOf, SoCandidate,
};
use rvllm::cutlass::plan::{Fp8GemmPlan, VariantId};
use rvllm::error::{CudaErrorKind, CutlassError, RvllmError};
use rvllm::symbols::{SoImage, Symbol, SymbolTable};

fn table(names: &[(&str, u64)]) -> SymbolTable {
    SymbolTable {
        entries: names.iter().map(|(n, a)| Symbol { name: n.to_string(), addr: *a }).collect(),
    }
}

fn kernels() -> SymbolTable {
    table(&[
        ("cutlass_fp8_gemm_v3", 1),
        ("cutlass_fp8_gemm_v3_workspace_size", 2),
        ("cutlass_fp8_gemm_residual_v5", 3),
        ("cutlass_fp8_gemm_residual_v5_workspace_size", 4),
        ("cutlass_fp8_gemm_channelscale", 5),
        ("cutlass_fp8_gemm_channelscale_workspace", 6),
    ])
}

fn policy() -> Vec<VariantId> {
    vec![VariantId(3), VariantId(105)]
}

fn sm120() -> SymbolTable {
    table(&[
        ("cutlass_fp8_gemm_blockscale_sm120", 1),
        ("cutlass_fp8_gemm_blockscale_sm120_workspace", 2),
        ("cutlass_fp8_gemm_blockscale_sm120_sfa_bytes", 3),
        ("cutlass_fp8_gemm_blockscale_sm120_sfb_bytes", 4),
        ("cutlass_fp8_gemm_blockscale_sm120_prep_sfa", 5),
        ("cutlass_fp8_gemm_blockscale_sm120_prep_sfb", 6),
    ])
}

fn plan(variant: u32, workspace_bytes: usize) -> Fp8GemmPlan {
    Fp8GemmPlan { m: 16, n: 32, k: 64, variant: VariantId(variant), workspace_bytes }
}

fn candidate(path: &str, is_file: bool) -> Option<SoCandidate> {
    Some(SoCandidate { path: path.to_string(), is_file })
}

fn so_backend() -> CutlassBackend {
    CutlassBackend::from(
        CutlassLib::load("c.so".into(), SoImage::Open(kernels()), &policy()).unwrap(),
    )
}

fn sm120_backend() -> CutlassBackend {
    CutlassBackend::load_for(
        Build::Cuda,
        Some(CompileTarget::Sm121),
        "c.so".into(),
        &candidate("/x/libcutlass_sm120.so", true),
        false,
        SoImage::Open(sm120()),
        &vec![],
    )
    .unwrap()
}

#[test]
fn missing_so_rejected() {
    let err = CutlassLib::load("/nonexistent/libcutlass.so".into(), SoImage::Missing, &vec![])
        .unwrap_err();
    let s = err.message();
    assert!(s.contains("libcutlass_kernels.so not at"));
}

#[test]
fn variant_symbols() {
    let names = |v| v2_symbol_names(VariantId(v));
    assert_eq!(
        names(0),
        (
            "cutlass_fp8_gemm_v0".to_string(),
            "cutlass_fp8_gemm_v0_workspace_size".to_string()
        )
    );
    assert_eq!(names(99).0, "cutlass_fp8_gemm_v99");
    assert_eq!(names(100).0, "cutlass_fp8_gemm_residual_v0");
    assert_eq!(names(105).1, "cutlass_fp8_gemm_residual_v5_workspace_size");
    let mut all: Vec<String> = (0..300).map(|v| names(v).0).collect();
    all.sort();
    all.dedup();
    assert_eq!(all.len(), 300);
}

#[test]
fn library_resolves_its_policy() {
    let lib = CutlassLib::load("c.so".into(), SoImage::Open(kernels()), &policy()).unwrap();
    let e = lib.entries.unwrap();
    assert_eq!(e.fp8_gemm.get(&3), Some(&1));
    assert_eq!(e.fp8_gemm_ws.get(&3), Some(&2));
    assert_eq!(e.fp8_gemm_residual.get(&105), Some(&3));
    assert_eq!(e.fp8_gemm_residual_ws.get(&105), Some(&4));
    assert_eq!((e.fp8_gemm.len(), e.fp8_gemm_residual.len()), (1, 1));
    assert_eq!((e.fp8_gemm_channelscale, e.fp8_gemm_channelscale_ws), (Some(5), Some(6)));
    let host = CutlassLib::load("c.so".into(), SoImage::Unlinked, &policy()).unwrap();
    assert!(host.entries.is_none());
}

#[test]
fn library_without_a_variant_is_refused() {
    let wanted = vec![VariantId(3), VariantId(7), VariantId(8)];
    let err = CutlassLib::load("c.so".into(), SoImage::Open(kernels()), &wanted).unwrap_err();
    assert_eq!(
        err.message(),
        "Corrupt libcutlass_kernels.so at c.so missing variant 7"
    );
    let mut t = kernels();
    t.entries.remove(1);
    assert!(CutlassLib::load("c.so".into(), SoImage::Open(t), &policy()).is_err());
    assert!(CutlassLib::load("c.so".into(), SoImage::OpenFailed, &vec![]).is_err());
}

#[test]
fn plans_check_their_workspace() {
    assert!(plan(3, 100).check_workspace(100).is_ok());
    match plan(3, 100).check_workspace(99) {
        Err(RvllmError::Cutlass { err: CutlassError::WorkspaceTooSmall { needed, got }, .. }) => {
            assert_eq!((needed, got), (100, 99));
        }
        other => panic!("{other:?}"),
    }
}

#[test]
fn gemm_calls() {
    let b = so_backend();
    let c = b.launch_fp8_gemm(&plan(3, 8), 1, 2, 3, 4, 5, 6, 8, 9).unwrap();
    assert_eq!((c.entry, c.output, c.a, c.b), (1, 1, 2, 3));
    assert_eq!((c.a_scale, c.b_scale, c.residual), (4, 5, None));
    assert_eq!((c.m, c.n, c.k, c.workspace, c.workspace_size), (16, 32, 64, 6, 8));
    assert!(c.finish(0).is_ok());
    match c.finish(2) {
        Err(RvllmError::Cutlass {
            err: CutlassError::KernelLaunchFailed { variant, cuda },
            ctx,
        }) => {
            assert_eq!((variant, cuda), (3, CudaErrorKind::LaunchFailed));
            assert_eq!((ctx.kernel, ctx.stream), ("fp8_gemm", 9));
        }
        other => panic!("{other:?}"),
    }
    let r = b.launch_fp8_gemm_residual(&plan(105, 8), 1, 2, 3, 4, 5, 77, 6, 8, 9).unwrap();
    assert_eq!((r.entry, r.residual), (3, Some(77)));
    let s = b.launch_fp8_gemm_channelscale(1, 2, 3, 4, 5, 16, 32, 64, 6, 8, 9).unwrap();
    assert_eq!((s.entry, s.a_scale, s.b_scale), (5, 4, 5));
}

#[test]
fn gemm_refusals() {
    let b = so_backend();
    assert!(b.launch_fp8_gemm(&plan(3, 9), 1, 2, 3, 4, 5, 6, 8, 9).is_err());
    assert!(b.launch_fp8_gemm(&plan(4, 0), 1, 2, 3, 4, 5, 6, 8, 9).is_err());
    assert!(b.launch_fp8_gemm_residual(&plan(3, 0), 1, 2, 3, 4, 5, 7, 6, 8, 9).is_err());
    let bare = CutlassBackend::from(
        CutlassLib::load("c.so".into(), SoImage::Open(table(&[])), &vec![]).unwrap(),
    );
    assert!(bare.launch_fp8_gemm_channelscale(1, 2, 3, 4, 5, 6, 7, 8, 9, 10, 11).is_err());
    for b in [CutlassBackend::Absent, sm120_backend()] {
        for r in [
            b.launch_fp8_gemm(&plan(3, 0), 1, 2, 3, 4, 5, 6, 8, 9),
            b.launch_fp8_gemm_residual(&plan(3, 0), 1, 2, 3, 4, 5, 7, 6, 8, 9),
            b.launch_fp8_gemm_channelscale(1, 2, 3, 4, 5, 6, 7, 8, 9, 10, 11),
        ] {
            match r {
                Err(RvllmError::Cutlass { err: CutlassError::FeatureNotAvailable { .. }, .. }) => {}
                other => panic!("{other:?}"),
            }
        }
    }
    for b in [CutlassBackend::Absent, so_backend()] {
        let r = b.launch_fp8_gemm_blockscale_sm120(1, 2, 3, 4, 5, 128, 7, 8, 9, 10, 11);
        match r {
            Err(RvllmError::Cutlass { err: CutlassError::FeatureNotAvailable { .. }, .. }) => {}
            other => panic!("{other:?}"),
        }
        assert_eq!(b.fp8_gemm_blockscale_sm120_workspace(1, 2, 3), SizeOf::Bytes(0));
    }
}

#[test]
fn sm120_library_path() {
    let path = |env: &Option<SoCandidate>, is_file| {
        resolve_sm120_so_path(env, "/k/libcutlass_kernels.so", is_file)
    };
    let file = candidate("/env.so", true);
    let gone = candidate("/env.so", false);
    let below = Some("/k/sm_120/libcutlass_sm120.so");
    assert_eq!(path(&file, true).as_deref(), Some("/env.so"));
    assert_eq!(path(&gone, true).as_deref(), below);
    assert_eq!(path(&None, true).as_deref(), below);
    assert_eq!(path(&gone, false), None);
    assert_eq!(path(&None, false), None);
    assert_eq!(resolve_sm120_so_path(&None, "/", true), None);
}

#[test]
fn sm120_library_lies_below_the_kernels() {
    for path in [
        "", "/", "//", ".", "./", "/.", "..", "a", "/a", "//a", "a/", "a//", "a/b", "a//b", "a/./b",
        "a/.", "a/./.", "./a", "././a", "./.", ".//a/", "../a", "a/..", "/a/b/c.so", "/a/b/./c.so//",
        "/./a", "/.//", ".a", ".a/b", "a.", "a./b", "a/.b/c", "<unused-on-sm121>", "\u{e4}/\u{f6}.so",
    ] {
        let expected = std::path::Path::new(path)
            .parent()
            .map(|p| p.join("sm_120").join("libcutlass_sm120.so"))
            .map(|p| p.to_str().unwrap().to_string());
        assert_eq!(sm120_sibling(path), expected, "{path}");
    }
}

#[test]
fn sm120_calls() {
    let lib = CutlassSm120Lib::load("s.so".into(), SoImage::Open(sm120())).unwrap();
    assert_eq!(
        lib.workspace_size(1, 2, 3),
        SizeOf::AskWorkspace { entry: 2, m: 1, n: 2, k: 3 }
    );
    assert_eq!(lib.sfa_bytes(7, 8), SizeOf::AskScales { entry: 3, outer: 7, inner: 8 });
    assert_eq!(lib.sfb_bytes(7, 8), SizeOf::AskScales { entry: 4, outer: 7, inner: 8 });
    let a = lib.launch_prep_sfa(10, 11, 12, 13, 14).unwrap();
    assert_eq!((a.entry, a.src, a.dst, a.dim_outer, a.dim_inner, a.stream), (5, 10, 11, 12, 13, 14));
    let b = lib.launch_prep_sfb(10, 11, 12, 13, 14).unwrap();
    assert_eq!(b.entry, 6);
    assert!(a.finish(0).is_ok());
    assert!(b.finish(1).is_err());
    let g = lib.launch_fp8_gemm_blockscale(1, 2, 3, 4, 5, 128, 7, 8, 9, 10, 11).unwrap();
    assert_eq!((g.entry, g.m, g.n, g.k), (1, 128, 7, 8));
}

#[test]
fn sm120_library_without_symbols() {
    let lib = CutlassSm120Lib::load("s.so".into(), SoImage::Open(table(&[]))).unwrap();
    assert_eq!(lib.workspace_size(1, 2, 3), SizeOf::Bytes(0));
    assert_eq!(lib.sfa_bytes(7, 8), SizeOf::Bytes(0));
    assert_eq!(lib.sfb_bytes(7, 8), SizeOf::Bytes(0));
    assert!(lib.launch_prep_sfa(1, 2, 3, 4, 5).is_err());
    assert!(lib.launch_prep_sfb(1, 2, 3, 4, 5).is_err());
    assert!(lib.launch_fp8_gemm_blockscale(1, 2, 3, 4, 5, 128, 7, 8, 9, 10, 11).is_err());
    assert!(CutlassSm120Lib::load("s.so".into(), SoImage::Missing).is_err());
    let host = CutlassSm120Lib::load("s.so".into(), SoImage::Unlinked).unwrap();
    assert_eq!(host.sfa_bytes(7, 8), SizeOf::Bytes(0));
}

#[test]
fn backend_of_each_target() {
    let path = "/k/c.so";
    let load = |build, target, is_file, so| {
        CutlassBackend::load_for(build, target, path.into(), &None, is_file, so, &policy())
    };
    match load(Build::Cuda, Some(CompileTarget::Sm90), false, SoImage::Open(kernels())).unwrap() {
        CutlassBackend::So(lib) => assert_eq!(lib.so_path, path),
        other => panic!("{other:?}"),
    }
    match load(Build::Cuda, Some(CompileTarget::Sm121), true, SoImage::Open(sm120())).unwrap() {
        CutlassBackend::SoSm120(lib) => {
            assert_eq!(lib.so_path, "/k/sm_120/libcutlass_sm120.so");
        }
        other => panic!("{other:?}"),
    }
    assert!(matches!(
        load(Build::Cuda, Some(CompileTarget::Sm121), false, SoImage::Missing).unwrap(),
        CutlassBackend::Absent
    ));
    assert!(matches!(
        load(Build::Host, Some(CompileTarget::Sm90), false, SoImage::Missing).unwrap(),
        CutlassBackend::Absent
    ));
    assert!(load(Build::Cuda, Some(CompileTarget::Sm80), false, SoImage::Missing).is_err());
    assert!(load(Build::Cuda, None, false, SoImage::Missing).is_err());
    assert!(matches!(
        CutlassBackend::source_for(Build::Cuda, Some(CompileTarget::Sm89), path, &None, true),
        CutlassSource::So
    ));
    assert_eq!(so_backend().so_path(), "c.so");
    assert_eq!(sm120_backend().so_path(), "/x/libcutlass_sm120.so");
    assert_eq!(CutlassBackend::Absent.so_path(), "");
    match sm120_backend().fp8_gemm_blockscale_sm120_workspace(1, 2, 3) {
        SizeOf::AskWorkspace { entry, .. } => assert_eq!(entry, 2),
        other => panic!("{other:?}"),
    }
}
