//! A loaded PTX module and the kernel handles resolved from it.

use crate::error::{CudaCtx, CudaErrorKind, LoaderCtx, LoaderError, RvllmError};
use crate::symbols::{lookup, SymbolTable};
use crate::text::{has_char, same_text};
use core::marker::PhantomData;
use std::rc::Rc;
use vstd::prelude::*;

verus! {

/// A kernel function handle as `cuLaunchKernel` takes it.
#[derive(Copy, Clone, Debug)]
pub struct KernelFn {
    pub raw: u64,
    pub name: &'static str,
}

impl KernelFn {
    pub fn raw(&self) -> (r: u64)
        ensures
            r == self.raw,
    {
        self.raw
    }

    pub fn name(&self) -> (r: &'static str)
        ensures
            r == self.name,
    {
        self.name
    }
}

/// What came of reading a PTX file.
#[derive(Debug)]
pub enum PtxImage {
    /// Host build: the file could not be read.
    Unreadable,
    /// Host build: the file was read; there is no driver to resolve symbols.
    Read,
    /// The driver refused the file.
    Rejected,
    /// The driver loaded the file: its module handle and its functions.
    Loaded { raw: u64, symbols: SymbolTable },
}

/// A loaded PTX module. Kernel handles obtained from it are valid as long as
/// the module is. It belongs to the thread that loaded it: it is neither `Send`
/// nor `Sync`.
#[derive(Debug)]
pub struct LoadedModule {
    raw: u64,
    path: String,
    /// `None` in a host build, where every name resolves to the null handle.
    symbols: Option<SymbolTable>,
    _not_send_sync: PhantomData<Rc<()>>,
}

/// The error of a failed `cuModuleLoad`.
pub open spec fn module_load_error() -> RvllmError {
    RvllmError::Cuda {
        op: "cuModuleLoad",
        kind: CudaErrorKind::ModuleLoadFailed,
        ctx: CudaCtx { stream: 0, kernel: "cuModuleLoad", launch: None, device: -1i32 },
    }
}

/// The error of a name that cannot be handed to the driver because it holds a
/// NUL character.
pub open spec fn nul_error(op: &'static str) -> RvllmError {
    RvllmError::Cuda { op, kind: CudaErrorKind::ModuleLoadFailed, ctx: CudaCtx::setup_ctx() }
}

/// The error of a failed `cuModuleGetFunction`.
pub open spec fn get_function_error(name: &'static str) -> RvllmError {
    RvllmError::Cuda {
        op: "cuModuleGetFunction",
        kind: CudaErrorKind::ModuleLoadFailed,
        ctx: CudaCtx { stream: 0, kernel: name, launch: None, device: -1i32 },
    }
}

/// What resolving `name` gives among the functions of a module; `None` stands
/// for a host build, where every name resolves to the null handle.
pub open spec fn resolve_in(
    functions: Option<Seq<(Seq<char>, u64)>>,
    name: &'static str,
) -> Result<KernelFn, RvllmError> {
    match functions {
        None => Ok(KernelFn { raw: 0, name }),
        Some(t) => if name@.contains('\0') {
            Err(nul_error("CString::new(name)"))
        } else {
            match lookup(t, name@) {
                Some(raw) => Ok(KernelFn { raw, name }),
                None => Err(get_function_error(name)),
            }
        },
    }
}

/// Whether `r` is what becomes of the file at `path`: the module holds what the
/// image holds. A path with a NUL character never reaches the driver.
pub open spec fn loads_as(
    path: Seq<char>,
    image: PtxImage,
    r: Result<LoadedModule, RvllmError>,
) -> bool {
    match image {
        PtxImage::Unreadable => r matches Err(RvllmError::Io { path: p }) && p@ == path,
        PtxImage::Read => r matches Ok(m) && m.handle() == 0 && m.file() == path
            && m.functions() is None,
        PtxImage::Rejected => r == Err::<LoadedModule, RvllmError>(
            if path.contains('\0') {
                nul_error("CString::new(path)")
            } else {
                module_load_error()
            },
        ),
        PtxImage::Loaded { raw, symbols } => if path.contains('\0') {
            r == Err::<LoadedModule, RvllmError>(nul_error("CString::new(path)"))
        } else {
            r matches Ok(m) && m.handle() == raw && m.file() == path && m.functions() == Some(
                symbols@,
            )
        },
    }
}

impl LoadedModule {
    /// The module handle of the driver; zero in a host build.
    pub closed spec fn handle(&self) -> u64 {
        self.raw
    }

    /// The file that the module was read from.
    pub closed spec fn file(&self) -> Seq<char> {
        self.path@
    }

    /// The functions of the module, or `None` in a host build.
    pub closed spec fn functions(&self) -> Option<Seq<(Seq<char>, u64)>> {
        match self.symbols {
            Some(t) => Some(t@),
            None => None,
        }
    }

    /// What resolving `name` gives.
    pub open spec fn resolved(&self, name: &'static str) -> Result<KernelFn, RvllmError> {
        resolve_in(self.functions(), name)
    }

    /// Takes over the module that was read from `path`.
    pub fn load_from_file(path: String, image: PtxImage) -> (r: Result<LoadedModule, RvllmError>)
        ensures
            loads_as(path@, image, r),
    {
        match image {
            PtxImage::Unreadable => Err(RvllmError::Io { path }),
            PtxImage::Read => Ok(
                LoadedModule { raw: 0, path, symbols: None, _not_send_sync: PhantomData },
            ),
            PtxImage::Rejected => {
                if has_char(path.as_str(), '\0') {
                    return Err(
                        RvllmError::cuda(
                            "CString::new(path)",
                            CudaErrorKind::ModuleLoadFailed,
                            CudaCtx::setup(),
                        ),
                    );
                }
                Err(
                    RvllmError::cuda(
                        "cuModuleLoad",
                        CudaErrorKind::ModuleLoadFailed,
                        CudaCtx { stream: 0, kernel: "cuModuleLoad", launch: None, device: -1 },
                    ),
                )
            },
            PtxImage::Loaded { raw, symbols } => {
                if has_char(path.as_str(), '\0') {
                    return Err(
                        RvllmError::cuda(
                            "CString::new(path)",
                            CudaErrorKind::ModuleLoadFailed,
                            CudaCtx::setup(),
                        ),
                    );
                }
                Ok(
                    LoadedModule {
                        raw,
                        path,
                        symbols: Some(symbols),
                        _not_send_sync: PhantomData,
                    },
                )
            },
        }
    }

    pub fn path(&self) -> (r: &str)
        ensures
            r@ == self.file(),
    {
        self.path.as_str()
    }

    pub fn raw(&self) -> (r: u64)
        ensures
            r == self.handle(),
    {
        self.raw
    }

    /// Resolves a kernel symbol (e.g. `"argmax_kernel"`) to a handle.
    pub fn get_function(&self, name: &'static str) -> (r: Result<KernelFn, RvllmError>)
        ensures
            r == self.resolved(name),
    {
        match &self.symbols {
            None => Ok(KernelFn { raw: 0, name }),
            Some(table) => {
                if has_char(name, '\0') {
                    return Err(
                        RvllmError::cuda(
                            "CString::new(name)",
                            CudaErrorKind::ModuleLoadFailed,
                            CudaCtx::setup(),
                        ),
                    );
                }
                match table.get(name) {
                    Some(raw) => Ok(KernelFn { raw, name }),
                    None => Err(
                        RvllmError::cuda(
                            "cuModuleGetFunction",
                            CudaErrorKind::ModuleLoadFailed,
                            CudaCtx { stream: 0, kernel: name, launch: None, device: -1 },
                        ),
                    ),
                }
            },
        }
    }
}

/// One PTX file of the kernel directory.
#[derive(Debug)]
pub struct PtxFile {
    /// The file name without its extension.
    pub stem: String,
    pub path: String,
    pub image: PtxImage,
}

/// The PTX files of one compile target.
#[derive(Debug)]
pub struct KernelLoader {
    pub files: Vec<PtxFile>,
}

/// The position of the first file with this stem.
pub open spec fn file_with_stem(files: Seq<PtxFile>, stem: Seq<char>) -> Option<int> {
    if exists|i: int| 0 <= i < files.len() && (#[trigger] files[i]).stem@ == stem {
        Some(
            choose|i: int|
                0 <= i < files.len() && (#[trigger] files[i]).stem@ == stem && forall|j: int|
                    0 <= j < i ==> (#[trigger] files[j]).stem@ != stem,
        )
    } else {
        None
    }
}

impl KernelLoader {
    /// Whether `r` is what loading the module `stem` gives.
    pub open spec fn gives(&self, stem: Seq<char>, r: Result<LoadedModule, RvllmError>) -> bool {
        match file_with_stem(self.files@, stem) {
            Some(i) => loads_as(self.files@[i].path@, self.files@[i].image, r),
            None => r matches Err(RvllmError::Loader { err: LoaderError::Corrupt { detail }, ctx })
                && detail@ == "no PTX module "@ + stem && ctx.path@ == stem && ctx.tensor is None,
        }
    }

    /// The functions of the module `stem`, where it loads.
    pub open spec fn loads(&self, stem: Seq<char>) -> Option<Option<Seq<(Seq<char>, u64)>>> {
        match file_with_stem(self.files@, stem) {
            Some(i) => match self.files@[i].image {
                PtxImage::Read => Some(None),
                PtxImage::Loaded { raw, symbols } => if self.files@[i].path@.contains('\0') {
                    None
                } else {
                    Some(Some(symbols@))
                },
                _ => None,
            },
            None => None,
        }
    }

    /// Loads the module with this stem.
    pub fn load_ptx(&self, stem: &str) -> (r: Result<LoadedModule, RvllmError>)
        ensures
            self.gives(stem@, r),
            match self.loads(stem@) {
                Some(functions) => r matches Ok(m) && m.functions() == functions,
                None => r is Err,
            },
    {
        let mut i: usize = 0;
        while i < self.files.len()
            invariant
                i <= self.files@.len(),
                forall|j: int| 0 <= j < i ==> (#[trigger] self.files@[j]).stem@ != stem@,
            decreases self.files@.len() - i,
        {
            let file = &self.files[i];
            if same_text(file.stem.as_str(), stem) {
                assert(self.files@[i as int].stem@ == stem@);
                assert(file_with_stem(self.files@, stem@) == Some(i as int));
                let image = match &file.image {
                    PtxImage::Unreadable => PtxImage::Unreadable,
                    PtxImage::Read => PtxImage::Read,
                    PtxImage::Rejected => PtxImage::Rejected,
                    PtxImage::Loaded { raw, symbols } => PtxImage::Loaded {
                        raw: *raw,
                        symbols: symbols.copy(),
                    },
                };
                return LoadedModule::load_from_file(file.path.clone(), image);
            }
            i = i + 1;
        }
        Err(
            RvllmError::Loader {
                err: LoaderError::Corrupt {
                    detail: "no PTX module ".to_owned().concat(stem),
                },
                ctx: LoaderCtx { path: stem.to_owned(), tensor: None },
            },
        )
    }
}

} // verus!
