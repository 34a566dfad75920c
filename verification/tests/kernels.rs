use rvllm::error::{CudaErrorKind, LoaderError, RvllmError};
use rvllm::kernels::module::{KernelLoader, LoadedModule, PtxFile, PtxImage};
use rvllm::symbols::{Symbol, SymbolTable};

fn symbols() -> SymbolTable {
    SymbolTable {
        entries: vec![
            Symbol { name: "argmax_kernel".to_string(), addr: 0x10 },
            Symbol { name: "argmax_kernel".to_string(), addr: 0x20 },
            Symbol { name: "rope".to_string(), addr: 0x30 },
        ],
    }
}

#[test]
fn tables_resolve_the_first_entry() {
    let t = symbols();
    assert_eq!(t.get("argmax_kernel"), Some(0x10));
    assert_eq!(t.get("rope"), Some(0x30));
    assert_eq!(t.get("rop"), None);
    let copy = t.copy();
    assert_eq!(copy.entries.len(), 3);
    assert_eq!(copy.get("rope"), Some(0x30));
}

#[test]
fn loaded_module_resolves_kernels() {
    let m = LoadedModule::load_from_file(
        "/k/a.ptx".to_string(),
        PtxImage::Loaded { raw: 5, symbols: symbols() },
    )
    .unwrap();
    assert_eq!((m.raw(), m.path()), (5, "/k/a.ptx"));
    let f = m.get_function("rope").unwrap();
    assert_eq!((f.raw(), f.name()), (0x30, "rope"));
    match m.get_function("missing") {
        Err(RvllmError::Cuda { op, kind: CudaErrorKind::ModuleLoadFailed, ctx }) => {
            assert_eq!((op, ctx.kernel, ctx.device), ("cuModuleGetFunction", "missing", -1));
        }
        other => panic!("{other:?}"),
    }
    match m.get_function("ro\0pe") {
        Err(RvllmError::Cuda { op, .. }) => assert_eq!(op, "CString::new(name)"),
        other => panic!("{other:?}"),
    }
}

#[test]
fn host_module_resolves_everything_to_null() {
    let m = LoadedModule::load_from_file("/k/a.ptx".to_string(), PtxImage::Read).unwrap();
    assert_eq!(m.raw(), 0);
    let f = m.get_function("anything").unwrap();
    assert_eq!((f.raw(), f.name()), (0, "anything"));
}

#[test]
fn module_files_that_do_not_load() {
    match LoadedModule::load_from_file("/k/a.ptx".to_string(), PtxImage::Unreadable) {
        Err(RvllmError::Io { path }) => assert_eq!(path, "/k/a.ptx"),
        other => panic!("{other:?}"),
    }
    match LoadedModule::load_from_file("/k/a.ptx".to_string(), PtxImage::Rejected) {
        Err(RvllmError::Cuda { op, .. }) => assert_eq!(op, "cuModuleLoad"),
        other => panic!("{other:?}"),
    }
    for image in [PtxImage::Rejected, PtxImage::Loaded { raw: 1, symbols: symbols() }] {
        match LoadedModule::load_from_file("/k/\0.ptx".to_string(), image) {
            Err(RvllmError::Cuda { op, .. }) => assert_eq!(op, "CString::new(path)"),
            other => panic!("{other:?}"),
        }
    }
}

#[test]
fn loader_finds_modules_by_stem() {
    let file = |stem: &str, path: &str, raw: u64| PtxFile {
        stem: stem.to_string(),
        path: path.to_string(),
        image: PtxImage::Loaded { raw, symbols: symbols() },
    };
    let loader = KernelLoader {
        files: vec![file("a", "/k/a.ptx", 1), file("b", "/k/b.ptx", 2), file("b", "/k/c.ptx", 3)],
    };
    assert_eq!(loader.load_ptx("b").unwrap().raw(), 2);
    assert_eq!(loader.load_ptx("a").unwrap().path(), "/k/a.ptx");
    match loader.load_ptx("z") {
        Err(RvllmError::Loader { err: LoaderError::Corrupt { detail }, .. }) => {
            assert_eq!(detail, "no PTX module z");
        }
        other => panic!("{other:?}"),
    }
}
