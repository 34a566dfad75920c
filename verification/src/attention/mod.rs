//! Paged attention: the FA3 shared library on SM80 to SM90, FA2 kernels from
//! PTX on sm_121.
//!
//! What holds of every backend and every launch:
//! - the head dimension is one of 128, 256 and 512;
//! - the query heads divide evenly among the KV heads;
//! - a context length of zero marks a padded slot.

use crate::arch::Build;
use crate::error::{AttentionError, AttnCtx, RvllmError};
use crate::kernels::module::{resolve_in, KernelFn, KernelLoader, LoadedModule};
use crate::symbols::{lookup, SoImage, SymbolTable};
use vstd::prelude::*;

pub mod decode;
pub mod load_laws;
pub mod prefill;
pub mod prefill_laws;

verus! {

/// The head dimensions that the attention kernels are built for.
pub const SUPPORTED_HEAD_DIMS: [u32; 3] = [128, 256, 512];

/// Whether the attention kernels are built for `head_dim`.
pub open spec fn head_dim_supported(head_dim: u32) -> bool {
    head_dim == 128 || head_dim == 256 || head_dim == 512
}

/// Whether the attention kernels are built for `head_dim`.
pub fn is_supported_head_dim(head_dim: u32) -> (r: bool)
    ensures
        r == head_dim_supported(head_dim),
{
    head_dim == SUPPORTED_HEAD_DIMS[0] || head_dim == SUPPORTED_HEAD_DIMS[1] || head_dim
        == SUPPORTED_HEAD_DIMS[2]
}

/// The list of supported head dimensions holds exactly the supported ones.
pub proof fn supported_head_dims_listed(head_dim: u32)
    ensures
        SUPPORTED_HEAD_DIMS@.contains(head_dim) <==> head_dim_supported(head_dim),
{
    assert(SUPPORTED_HEAD_DIMS@ =~= seq![128u32, 256, 512]);
    if head_dim_supported(head_dim) {
        assert(SUPPORTED_HEAD_DIMS@[0] == 128);
        assert(SUPPORTED_HEAD_DIMS@[1] == 256);
        assert(SUPPORTED_HEAD_DIMS@[2] == 512);
    }
}

/// Entry points of `libfa3_kernels.so`.
#[derive(Copy, Clone, Debug, PartialEq, Eq)]
pub struct Fa3Entries {
    pub workspace_size: u64,
    pub paged_decode: u64,
    pub paged_decode_fp8: u64,
    /// Older builds of the library do not export it. Callers that only decode
    /// can use either; prefill needs it.
    pub paged_prefill_fp8: Option<u64>,
}

/// `libfa3_kernels.so` as loaded. There is no value of this type for a library
/// that is missing or lacks a required entry point.
#[derive(Debug)]
pub struct Fa3Kernels {
    pub so_path: String,
    /// The head dimension that it was loaded for.
    pub head_dim: u32,
    /// `None` in a host build.
    pub entries: Option<Fa3Entries>,
}

/// Symbol names of the FA3 entry points: workspace size, decode, FP8 decode,
/// FP8 prefill.
pub struct Fa3SymbolNames {
    pub workspace_size: &'static str,
    pub paged_decode: &'static str,
    pub paged_decode_fp8: &'static str,
    pub paged_prefill_fp8: &'static str,
}

/// The Hopper names of the entry points.
pub open spec fn sm90_names() -> Fa3SymbolNames {
    Fa3SymbolNames {
        workspace_size: "fa3_sm90_workspace_size",
        paged_decode: "fa3_sm90_paged_decode",
        paged_decode_fp8: "fa3_sm90_paged_decode_fp8",
        paged_prefill_fp8: "fa3_sm90_paged_prefill_fp8",
    }
}

/// The Ada names of the entry points.
pub open spec fn sm89_names() -> Fa3SymbolNames {
    Fa3SymbolNames {
        workspace_size: "fa_sm89_workspace_size",
        paged_decode: "fa_sm89_paged_decode",
        paged_decode_fp8: "fa_sm89_paged_decode_fp8",
        paged_prefill_fp8: "fa_sm89_paged_prefill_fp8",
    }
}

/// The names that a library is read by. The Ada names count only where the
/// library has the Ada workspace query and not the Hopper one.
pub open spec fn fa3_names(table: Seq<(Seq<char>, u64)>) -> Fa3SymbolNames {
    if lookup(table, sm90_names().workspace_size@) is None && lookup(
        table,
        sm89_names().workspace_size@,
    ) is Some {
        sm89_names()
    } else {
        sm90_names()
    }
}

/// What the library's symbols give: the entries, or the step at which a
/// required one was missing.
pub open spec fn fa3_entries(table: Seq<(Seq<char>, u64)>) -> Result<Fa3Entries, &'static str> {
    let names = fa3_names(table);
    match lookup(table, names.workspace_size@) {
        None => Err("dlsym:workspace_size"),
        Some(workspace_size) => match lookup(table, names.paged_decode@) {
            None => Err("dlsym:paged_decode"),
            Some(paged_decode) => match lookup(table, names.paged_decode_fp8@) {
                None => Err("dlsym:paged_decode_fp8"),
                Some(paged_decode_fp8) => Ok(
                    Fa3Entries {
                        workspace_size,
                        paged_decode,
                        paged_decode_fp8,
                        paged_prefill_fp8: lookup(table, names.paged_prefill_fp8@),
                    },
                ),
            },
        },
    }
}

/// Whether `e` says that the library at `path` is missing, found at step `op`.
pub open spec fn is_so_missing(
    e: RvllmError,
    path: Seq<char>,
    op: &'static str,
    head_dim: u32,
) -> bool {
    e matches RvllmError::Attention { err: AttentionError::Fa3SoMissing { path: p }, ctx } && p@
        == path && ctx == (AttnCtx { op, stream: 0, num_seqs: 0, head_dim })
}

/// The error for a head dimension that no kernel is built for.
pub open spec fn unsupported_head_dim(ctx: AttnCtx) -> RvllmError {
    RvllmError::Attention {
        err: AttentionError::UnsupportedHeadDim {
            got: ctx.head_dim,
            supported: SUPPORTED_HEAD_DIMS,
        },
        ctx,
    }
}

fn so_missing(path: String, op: &'static str, head_dim: u32) -> (r: RvllmError)
    ensures
        is_so_missing(r, path@, op, head_dim),
{
    RvllmError::Attention {
        err: AttentionError::Fa3SoMissing { path },
        ctx: AttnCtx { op, stream: 0, num_seqs: 0, head_dim },
    }
}

fn fa3_symbol_names(table: &SymbolTable) -> (r: Fa3SymbolNames)
    ensures
        r == fa3_names(table@),
{
    if table.get("fa3_sm90_workspace_size").is_none() && table.get(
        "fa_sm89_workspace_size",
    ).is_some() {
        Fa3SymbolNames {
            workspace_size: "fa_sm89_workspace_size",
            paged_decode: "fa_sm89_paged_decode",
            paged_decode_fp8: "fa_sm89_paged_decode_fp8",
            paged_prefill_fp8: "fa_sm89_paged_prefill_fp8",
        }
    } else {
        Fa3SymbolNames {
            workspace_size: "fa3_sm90_workspace_size",
            paged_decode: "fa3_sm90_paged_decode",
            paged_decode_fp8: "fa3_sm90_paged_decode_fp8",
            paged_prefill_fp8: "fa3_sm90_paged_prefill_fp8",
        }
    }
}

/// A call of the library's workspace query.
#[derive(Copy, Clone, Debug, PartialEq, Eq, Structural)]
pub struct WorkspaceQuery {
    pub entry: u64,
    pub batch_size: i32,
    pub num_heads: i32,
    pub max_num_splits: i32,
}

impl WorkspaceQuery {
    /// The size in bytes that the library's answer stands for.
    pub fn answered(&self, bytes: i32) -> (r: usize)
        ensures
            r == bytes as usize,
    {
        bytes as usize
    }
}

/// A workspace size: known here, or to be asked of the library.
#[derive(Copy, Clone, Debug, PartialEq, Eq, Structural)]
pub enum WorkspaceSize {
    Bytes(usize),
    Ask(WorkspaceQuery),
}

impl Fa3Kernels {
    /// Takes over the FA3 library at `path`. A missing file, a head dimension
    /// that no kernel is built for, a file that is no library and a library
    /// without a required entry point are refused, in that order.
    pub fn load(path: String, head_dim: u32, so: SoImage) -> (r: Result<Fa3Kernels, RvllmError>)
        ensures
            match r {
                Ok(k) => head_dim_supported(head_dim) && k.so_path@ == path@ && k.head_dim
                    == head_dim && match so {
                    SoImage::Unlinked => k.entries is None,
                    SoImage::Open(table) => k.entries is Some && fa3_entries(table@) == Ok::<
                        Fa3Entries,
                        &'static str,
                    >(k.entries->0),
                    _ => false,
                },
                Err(e) => if so is Missing {
                    is_so_missing(e, path@, "Fa3Kernels::load", head_dim)
                } else if !head_dim_supported(head_dim) {
                    e == unsupported_head_dim(
                        AttnCtx { op: "Fa3Kernels::load", stream: 0, num_seqs: 0, head_dim },
                    )
                } else {
                    match so {
                        SoImage::OpenFailed => is_so_missing(e, path@, "dlopen", head_dim),
                        SoImage::Open(table) => fa3_entries(table@) is Err && is_so_missing(
                            e,
                            path@,
                            fa3_entries(table@)->Err_0,
                            head_dim,
                        ),
                        _ => false,
                    }
                },
            },
    {
        if let SoImage::Missing = so {
            return Err(so_missing(path, "Fa3Kernels::load", head_dim));
        }
        if !is_supported_head_dim(head_dim) {
            return Err(
                RvllmError::Attention {
                    err: AttentionError::UnsupportedHeadDim {
                        got: head_dim,
                        supported: SUPPORTED_HEAD_DIMS,
                    },
                    ctx: AttnCtx { op: "Fa3Kernels::load", stream: 0, num_seqs: 0, head_dim },
                },
            );
        }
        let table = match so {
            SoImage::Missing | SoImage::OpenFailed => {
                return Err(so_missing(path, "dlopen", head_dim));
            },
            SoImage::Unlinked => {
                return Ok(Fa3Kernels { so_path: path, head_dim, entries: None });
            },
            SoImage::Open(table) => table,
        };
        let names = fa3_symbol_names(&table);
        let workspace_size: u64 = match table.get(names.workspace_size) {
            Some(addr) => addr,
            None => {
                return Err(so_missing(path, "dlsym:workspace_size", head_dim));
            },
        };
        let paged_decode: u64 = match table.get(names.paged_decode) {
            Some(addr) => addr,
            None => {
                return Err(so_missing(path, "dlsym:paged_decode", head_dim));
            },
        };
        let paged_decode_fp8: u64 = match table.get(names.paged_decode_fp8) {
            Some(addr) => addr,
            None => {
                return Err(so_missing(path, "dlsym:paged_decode_fp8", head_dim));
            },
        };
        let paged_prefill_fp8 = table.get(names.paged_prefill_fp8);
        Ok(
            Fa3Kernels {
                so_path: path,
                head_dim,
                entries: Some(
                    Fa3Entries {
                        workspace_size,
                        paged_decode,
                        paged_decode_fp8,
                        paged_prefill_fp8,
                    },
                ),
            },
        )
    }

    /// The FP8 prefill entry point, where the library has it.
    pub open spec fn prefill_entry(self) -> Option<u64> {
        match self.entries {
            Some(e) => e.paged_prefill_fp8,
            None => None,
        }
    }

    /// Minimum workspace in bytes for this batch and head count. The library is
    /// asked for it, with at most 128 splits; a host build needs none.
    pub open spec fn workspace(self, batch_size: i32, num_heads: i32) -> WorkspaceSize {
        match self.entries {
            Some(e) => WorkspaceSize::Ask(
                WorkspaceQuery {
                    entry: e.workspace_size,
                    batch_size,
                    num_heads,
                    max_num_splits: 128,
                },
            ),
            None => WorkspaceSize::Bytes(0),
        }
    }

    /// Minimum workspace for this batch and head count.
    pub fn workspace_size(&self, batch_size: i32, num_heads: i32) -> (r: WorkspaceSize)
        ensures
            r == self.workspace(batch_size, num_heads),
    {
        match &self.entries {
            Some(e) => WorkspaceSize::Ask(
                WorkspaceQuery {
                    entry: e.workspace_size,
                    batch_size,
                    num_heads,
                    max_num_splits: 128,
                },
            ),
            None => WorkspaceSize::Bytes(0),
        }
    }
}

/// The FA2 kernels as loaded from PTX.
#[derive(Debug)]
pub struct Fa2Entries {
    pub flash_attention_mod: LoadedModule,
    pub fn_decode: KernelFn,
    /// Decode with half-precision input and output against a half-precision KV
    /// cache.
    pub fn_decode_f16io: KernelFn,
    pub fn_prefill: KernelFn,
    pub fn_prefill_f16kv: KernelFn,
    /// Decode against an FP8 KV cache.
    pub fn_decode_fp8kv: KernelFn,
    /// Prefill of many query tokens in one launch. `None` sends callers to one
    /// decode launch per query token.
    pub fn_prefill_fp8kv_unified: Option<KernelFn>,
    /// The module of the unified prefill kernel, kept as long as its handle.
    pub unified_prefill_mod: Option<LoadedModule>,
}

/// Attention kernels from PTX, for targets that `libfa3_kernels.so` does not
/// cover. Launches that these kernels do not implement are refused with
/// `FeatureNotAvailable`.
#[derive(Debug)]
pub struct Fa2PtxKernels {
    pub head_dim: u32,
    /// `None` in a host build.
    pub entries: Option<Fa2Entries>,
}

/// The handles of the required FA2 kernels, in the order in which they are
/// resolved: decode, half-precision decode, prefill, half-precision prefill,
/// FP8 decode.
pub open spec fn fa2_required(functions: Option<Seq<(Seq<char>, u64)>>) -> Result<
    (KernelFn, KernelFn, KernelFn, KernelFn, KernelFn),
    RvllmError,
> {
    match resolve_in(functions, "flash_attention_2_decode_kernel") {
        Err(e) => Err(e),
        Ok(decode) => match resolve_in(functions, "flash_attention_2_decode_f16io_kernel") {
            Err(e) => Err(e),
            Ok(decode_f16io) => match resolve_in(functions, "flash_attention_2_kernel") {
                Err(e) => Err(e),
                Ok(prefill) => match resolve_in(functions, "flash_attention_2_f16kv_kernel") {
                    Err(e) => Err(e),
                    Ok(prefill_f16kv) => match resolve_in(
                        functions,
                        "flash_attention_2_decode_fp8kv_kernel",
                    ) {
                        Err(e) => Err(e),
                        Ok(decode_fp8kv) => Ok(
                            (decode, decode_f16io, prefill, prefill_f16kv, decode_fp8kv),
                        ),
                    },
                },
            },
        },
    }
}

/// The handle of the unified prefill kernel. A module that does not load and a
/// symbol that does not resolve both count as not available.
pub open spec fn fa2_unified(loader: &KernelLoader) -> Option<KernelFn> {
    match loader.loads("flash_attention_unified_prefill"@) {
        Some(functions) => match resolve_in(
            functions,
            "flash_attention_2_prefill_fp8kv_unified_kernel",
        ) {
            Ok(f) => Some(f),
            Err(_) => None,
        },
        None => None,
    }
}

/// Whether `e` holds the loaded modules, the required handles and the unified
/// prefill kernel where there is one.
pub open spec fn fa2_entries(
    loader: &KernelLoader,
    required: (KernelFn, KernelFn, KernelFn, KernelFn, KernelFn),
    e: Fa2Entries,
) -> bool {
    &&& loader.gives("flash_attention"@, Ok(e.flash_attention_mod))
    &&& required == (
        e.fn_decode,
        e.fn_decode_f16io,
        e.fn_prefill,
        e.fn_prefill_f16kv,
        e.fn_decode_fp8kv,
    )
    &&& e.fn_prefill_fp8kv_unified == fa2_unified(loader)
    &&& match e.unified_prefill_mod {
        Some(m) => loader.gives("flash_attention_unified_prefill"@, Ok(m)),
        None => loader.loads("flash_attention_unified_prefill"@) is None,
    }
}

impl Fa2PtxKernels {
    /// Loads `flash_attention.ptx` and resolves its kernels; the unified
    /// prefill kernel comes from a module of its own and is optional.
    pub fn load(build: Build, loader: &KernelLoader, head_dim: u32) -> (r: Result<
        Fa2PtxKernels,
        RvllmError,
    >)
        ensures
            if !head_dim_supported(head_dim) {
                r == Err::<Fa2PtxKernels, RvllmError>(
                    unsupported_head_dim(
                        AttnCtx { op: "Fa2PtxKernels::load", stream: 0, num_seqs: 0, head_dim },
                    ),
                )
            } else if build is Host {
                r == Ok::<Fa2PtxKernels, RvllmError>(Fa2PtxKernels { head_dim, entries: None })
            } else {
                match loader.loads("flash_attention"@) {
                    None => r is Err && loader.gives("flash_attention"@, Err(r->Err_0)),
                    Some(functions) => match fa2_required(functions) {
                        Err(e) => r == Err::<Fa2PtxKernels, RvllmError>(e),
                        Ok(required) => r is Ok && r->Ok_0.head_dim == head_dim
                            && r->Ok_0.entries is Some && fa2_entries(
                            loader,
                            required,
                            r->Ok_0.entries->0,
                        ),
                    },
                }
            },
    {
        if !is_supported_head_dim(head_dim) {
            return Err(
                RvllmError::Attention {
                    err: AttentionError::UnsupportedHeadDim {
                        got: head_dim,
                        supported: SUPPORTED_HEAD_DIMS,
                    },
                    ctx: AttnCtx { op: "Fa2PtxKernels::load", stream: 0, num_seqs: 0, head_dim },
                },
            );
        }
        if let Build::Host = build {
            return Ok(Fa2PtxKernels { head_dim, entries: None });
        }
        let flash_attention_mod = match loader.load_ptx("flash_attention") {
            Ok(m) => m,
            Err(e) => {
                return Err(e);
            },
        };
        let fn_decode = flash_attention_mod.get_function("flash_attention_2_decode_kernel")?;
        let fn_decode_f16io = flash_attention_mod.get_function(
            "flash_attention_2_decode_f16io_kernel",
        )?;
        let fn_prefill = flash_attention_mod.get_function("flash_attention_2_kernel")?;
        let fn_prefill_f16kv = flash_attention_mod.get_function("flash_attention_2_f16kv_kernel")?;
        let fn_decode_fp8kv = flash_attention_mod.get_function(
            "flash_attention_2_decode_fp8kv_kernel",
        )?;
        let (unified_prefill_mod, fn_prefill_fp8kv_unified) = match loader.load_ptx(
            "flash_attention_unified_prefill",
        ) {
            Ok(m) => {
                let f = match m.get_function("flash_attention_2_prefill_fp8kv_unified_kernel") {
                    Ok(f) => Some(f),
                    Err(_) => None,
                };
                (Some(m), f)
            },
            Err(_) => (None, None),
        };
        Ok(
            Fa2PtxKernels {
                head_dim,
                entries: Some(
                    Fa2Entries {
                        flash_attention_mod,
                        fn_decode,
                        fn_decode_f16io,
                        fn_prefill,
                        fn_prefill_f16kv,
                        fn_decode_fp8kv,
                        fn_prefill_fp8kv_unified,
                        unified_prefill_mod,
                    },
                ),
            },
        )
    }

    /// The unified prefill kernel, where it is loaded.
    pub open spec fn unified_prefill(self) -> Option<KernelFn> {
        match self.entries {
            Some(e) => e.fn_prefill_fp8kv_unified,
            None => None,
        }
    }

    /// Whether the unified FP8 prefill kernel can be launched. Callers that can
    /// fall back to one decode launch per query token ask first.
    pub fn has_unified_prefill(&self) -> (r: bool)
        ensures
            r == (self.unified_prefill() is Some),
    {
        match &self.entries {
            Some(e) => e.fn_prefill_fp8kv_unified.is_some(),
            None => false,
        }
    }
}

/// The attention backend of the live device, picked once at bring-up: FA3 on
/// SM80, SM89 and SM90, FA2 from PTX on SM121. A launch that a backend does not
/// implement is an error, never a launch with wrong output.
#[derive(Debug)]
#[non_exhaustive]
pub enum AttentionBackend {
    Fa3(Fa3Kernels),
    Fa2Ptx(Fa2PtxKernels),
}

impl AttentionBackend {
    /// Minimum workspace for this batch and head count. The FA2 kernels keep
    /// their scratch in shared memory and need none.
    #[must_use]
    pub fn workspace_size(&self, batch_size: i32, num_heads: i32) -> (r: WorkspaceSize)
        ensures
            r == match *self {
                AttentionBackend::Fa3(fa3) => fa3.workspace(batch_size, num_heads),
                AttentionBackend::Fa2Ptx(_) => WorkspaceSize::Bytes(0),
            },
    {
        match self {
            AttentionBackend::Fa3(fa3) => fa3.workspace_size(batch_size, num_heads),
            AttentionBackend::Fa2Ptx(_) => WorkspaceSize::Bytes(0),
        }
    }

    /// Head dimension that the backend was constructed for.
    #[must_use]
    pub fn head_dim(&self) -> (r: u32)
        ensures
            r == match *self {
                AttentionBackend::Fa3(fa3) => fa3.head_dim,
                AttentionBackend::Fa2Ptx(fa2) => fa2.head_dim,
            },
    {
        match self {
            AttentionBackend::Fa3(fa3) => fa3.head_dim,
            AttentionBackend::Fa2Ptx(fa2) => fa2.head_dim,
        }
    }
}

impl vstd::std_specs::convert::FromSpecImpl<Fa3Kernels> for AttentionBackend {
    open spec fn obeys_from_spec() -> bool {
        true
    }

    open spec fn from_spec(fa3: Fa3Kernels) -> AttentionBackend {
        AttentionBackend::Fa3(fa3)
    }
}

impl From<Fa3Kernels> for AttentionBackend {
    fn from(fa3: Fa3Kernels) -> (r: AttentionBackend) {
        AttentionBackend::Fa3(fa3)
    }
}

impl vstd::std_specs::convert::FromSpecImpl<Fa2PtxKernels> for AttentionBackend {
    open spec fn obeys_from_spec() -> bool {
        true
    }

    open spec fn from_spec(fa2: Fa2PtxKernels) -> AttentionBackend {
        AttentionBackend::Fa2Ptx(fa2)
    }
}

impl From<Fa2PtxKernels> for AttentionBackend {
    fn from(fa2: Fa2PtxKernels) -> (r: AttentionBackend) {
        AttentionBackend::Fa2Ptx(fa2)
    }
}

} // verus!
