//! Which kernels a loaded attention backend holds, said of the names in the
//! library or module that it was loaded from.

use crate::arch::Build;
use crate::attention::{
    AttentionBackend, Fa2PtxKernels, Fa3Kernels, WorkspaceQuery, WorkspaceSize,
};
use crate::error::{AttentionError, RvllmError};
use crate::kernels::module::{resolve_in, KernelFn, KernelLoader};
use crate::symbols::{lookup, lookup_finds_an_entry, SoImage, SymbolTable};
use vstd::prelude::*;

verus! {

/// The stem of the FA3 names: the Ada one where the library has the Ada
/// workspace query and not the Hopper one, and else the Hopper one.
pub open spec fn stem_of(table: Seq<(Seq<char>, u64)>) -> Seq<char> {
    if lookup(table, "fa3_sm90"@ + "_workspace_size"@) is None && lookup(
        table,
        "fa_sm89"@ + "_workspace_size"@,
    ) is Some {
        "fa_sm89"@
    } else {
        "fa3_sm90"@
    }
}

proof fn names_are_stems_with_suffixes()
    ensures
        "fa3_sm90"@ + "_workspace_size"@ == "fa3_sm90_workspace_size"@,
        "fa3_sm90"@ + "_paged_decode"@ == "fa3_sm90_paged_decode"@,
        "fa3_sm90"@ + "_paged_decode_fp8"@ == "fa3_sm90_paged_decode_fp8"@,
        "fa3_sm90"@ + "_paged_prefill_fp8"@ == "fa3_sm90_paged_prefill_fp8"@,
        "fa_sm89"@ + "_workspace_size"@ == "fa_sm89_workspace_size"@,
        "fa_sm89"@ + "_paged_decode"@ == "fa_sm89_paged_decode"@,
        "fa_sm89"@ + "_paged_decode_fp8"@ == "fa_sm89_paged_decode_fp8"@,
        "fa_sm89"@ + "_paged_prefill_fp8"@ == "fa_sm89_paged_prefill_fp8"@,
{
    reveal_strlit("fa3_sm90");
    reveal_strlit("fa_sm89");
    reveal_strlit("_workspace_size");
    reveal_strlit("_paged_decode");
    reveal_strlit("_paged_decode_fp8");
    reveal_strlit("_paged_prefill_fp8");
    reveal_strlit("fa3_sm90_workspace_size");
    reveal_strlit("fa3_sm90_paged_decode");
    reveal_strlit("fa3_sm90_paged_decode_fp8");
    reveal_strlit("fa3_sm90_paged_prefill_fp8");
    reveal_strlit("fa_sm89_workspace_size");
    reveal_strlit("fa_sm89_paged_decode");
    reveal_strlit("fa_sm89_paged_decode_fp8");
    reveal_strlit("fa_sm89_paged_prefill_fp8");
}

/// The FA3 entry points are those that the library has under their names, all
/// with one stem. The prefill entry point may be missing; the others may not.
pub proof fn fa3_entries_are_found_by_name(
    path: String,
    head_dim: u32,
    table: SymbolTable,
    r: Result<Fa3Kernels, RvllmError>,
)
    requires
        call_ensures(Fa3Kernels::load, (path, head_dim, SoImage::Open(table)), r),
    ensures
        ({
            let stem = stem_of(table@);
            &&& r is Ok <==> (head_dim == 128 || head_dim == 256 || head_dim == 512) && lookup(
                table@,
                stem + "_workspace_size"@,
            ) is Some && lookup(table@, stem + "_paged_decode"@) is Some && lookup(
                table@,
                stem + "_paged_decode_fp8"@,
            ) is Some
            &&& r matches Ok(k) ==> {
                &&& k.so_path@ == path@
                &&& k.head_dim == head_dim
                &&& k.entries is Some
                &&& table@.contains((stem + "_workspace_size"@, k.entries->0.workspace_size))
                &&& table@.contains((stem + "_paged_decode"@, k.entries->0.paged_decode))
                &&& table@.contains((stem + "_paged_decode_fp8"@, k.entries->0.paged_decode_fp8))
                &&& k.entries->0.paged_prefill_fp8 == lookup(
                    table@,
                    stem + "_paged_prefill_fp8"@,
                )
            }
        }),
{
    names_are_stems_with_suffixes();
    let stem = stem_of(table@);
    lookup_finds_an_entry(table@, stem + "_workspace_size"@);
    lookup_finds_an_entry(table@, stem + "_paged_decode"@);
    lookup_finds_an_entry(table@, stem + "_paged_decode_fp8"@);
}

/// A library that is not there gives no kernels, and one that is not linked in
/// gives kernels without entry points.
pub proof fn fa3_needs_its_library(
    path: String,
    head_dim: u32,
    so: SoImage,
    r: Result<Fa3Kernels, RvllmError>,
)
    requires
        call_ensures(Fa3Kernels::load, (path, head_dim, so), r),
    ensures
        so is Missing || so is OpenFailed ==> r is Err,
        so is Unlinked ==> (r is Ok <==> head_dim == 128 || head_dim == 256 || head_dim == 512),
        so is Unlinked ==> (r matches Ok(k) ==> k.entries is None && k.head_dim == head_dim
            && k.so_path@ == path@),
{
}

/// A handle is that of the function with its name.
pub proof fn handles_carry_their_names(
    functions: Option<Seq<(Seq<char>, u64)>>,
    name: &'static str,
    f: KernelFn,
)
    requires
        resolve_in(functions, name) == Ok::<KernelFn, RvllmError>(f),
    ensures
        f.name == name,
        functions matches Some(t) ==> t.contains((name@, f.raw)),
        functions is None ==> f.raw == 0,
{
    if functions is Some {
        lookup_finds_an_entry(functions->0, name@);
    }
}

/// Whether `f` is the function of this name in a module; in a host build every
/// name has the null handle.
pub open spec fn is_function(
    functions: Option<Seq<(Seq<char>, u64)>>,
    name: &'static str,
    f: KernelFn,
) -> bool {
    &&& f.name == name
    &&& functions matches Some(t) ==> t.contains((name@, f.raw))
    &&& functions is None ==> f.raw == 0
}

/// The FA2 handles are those of the functions with their names: the decode and
/// prefill kernels of `flash_attention`, and the unified prefill kernel of
/// `flash_attention_unified_prefill`, which is optional.
pub proof fn fa2_kernels_are_found_by_name(
    loader: KernelLoader,
    head_dim: u32,
    k: Fa2PtxKernels,
)
    requires
        call_ensures(
            Fa2PtxKernels::load,
            (Build::Cuda, &loader, head_dim),
            Ok::<Fa2PtxKernels, RvllmError>(k),
        ),
    ensures
        head_dim == 128 || head_dim == 256 || head_dim == 512,
        k.head_dim == head_dim,
        k.entries is Some,
        loader.loads("flash_attention"@) is Some,
        ({
            let e = k.entries->0;
            let functions = loader.loads("flash_attention"@)->0;
            &&& is_function(functions, "flash_attention_2_decode_kernel", e.fn_decode)
            &&& is_function(functions, "flash_attention_2_decode_f16io_kernel", e.fn_decode_f16io)
            &&& is_function(functions, "flash_attention_2_kernel", e.fn_prefill)
            &&& is_function(functions, "flash_attention_2_f16kv_kernel", e.fn_prefill_f16kv)
            &&& is_function(functions, "flash_attention_2_decode_fp8kv_kernel", e.fn_decode_fp8kv)
            &&& e.fn_prefill_fp8kv_unified matches Some(f) ==> loader.loads(
                "flash_attention_unified_prefill"@,
            ) is Some && is_function(
                loader.loads("flash_attention_unified_prefill"@)->0,
                "flash_attention_2_prefill_fp8kv_unified_kernel",
                f,
            )
            &&& e.fn_prefill_fp8kv_unified is None ==> (loader.loads(
                "flash_attention_unified_prefill"@,
            ) matches Some(functions) ==> resolve_in(
                functions,
                "flash_attention_2_prefill_fp8kv_unified_kernel",
            ) is Err)
        }),
{
    let e = k.entries->0;
    let functions = loader.loads("flash_attention"@)->0;
    handles_carry_their_names(functions, "flash_attention_2_decode_kernel", e.fn_decode);
    handles_carry_their_names(
        functions,
        "flash_attention_2_decode_f16io_kernel",
        e.fn_decode_f16io,
    );
    handles_carry_their_names(functions, "flash_attention_2_kernel", e.fn_prefill);
    handles_carry_their_names(functions, "flash_attention_2_f16kv_kernel", e.fn_prefill_f16kv);
    handles_carry_their_names(
        functions,
        "flash_attention_2_decode_fp8kv_kernel",
        e.fn_decode_fp8kv,
    );
    if e.fn_prefill_fp8kv_unified is Some {
        handles_carry_their_names(
            loader.loads("flash_attention_unified_prefill"@)->0,
            "flash_attention_2_prefill_fp8kv_unified_kernel",
            e.fn_prefill_fp8kv_unified->0,
        );
    }
}

/// FA3 asks its library for the workspace of this batch and head count; a
/// backend without a library needs none.
pub proof fn workspaces_are_asked_of_the_library(
    backend: AttentionBackend,
    batch_size: i32,
    num_heads: i32,
    r: WorkspaceSize,
)
    requires
        call_ensures(AttentionBackend::workspace_size, (&backend, batch_size, num_heads), r),
    ensures
        match r {
            WorkspaceSize::Ask(q) => {
                &&& backend matches AttentionBackend::Fa3(fa3)
                &&& fa3.entries matches Some(e)
                &&& e.workspace_size == q.entry
                &&& q.batch_size == batch_size
                &&& q.num_heads == num_heads
                &&& q.max_num_splits == 128
            },
            WorkspaceSize::Bytes(n) => n == 0 && (backend matches AttentionBackend::Fa3(fa3)
                ==> fa3.entries is None),
        },
{
}

/// The library's answer is the size.
pub proof fn answers_are_sizes(q: WorkspaceQuery, bytes: i32, r: usize)
    requires
        call_ensures(WorkspaceQuery::answered, (&q, bytes), r),
        bytes >= 0,
    ensures
        r == bytes,
{
}

/// A backend knows the head dimension that it was loaded for.
pub proof fn backends_know_their_head_dim(
    fa3: Fa3Kernels,
    fa2: Fa2PtxKernels,
    a: u32,
    b: u32,
)
    requires
        call_ensures(AttentionBackend::head_dim, (&AttentionBackend::Fa3(fa3),), a),
        call_ensures(AttentionBackend::head_dim, (&AttentionBackend::Fa2Ptx(fa2),), b),
    ensures
        a == fa3.head_dim,
        b == fa2.head_dim,
{
}

/// A head dimension that no kernel is built for is refused by both loaders, and the
/// error names it; a library that is missing is named by its path.
pub proof fn refusals_name_what_is_wrong(
    path: String,
    head_dim: u32,
    so: SoImage,
    build: Build,
    loader: KernelLoader,
    fa3: Result<Fa3Kernels, RvllmError>,
    fa2: Result<Fa2PtxKernels, RvllmError>,
)
    requires
        call_ensures(Fa3Kernels::load, (path, head_dim, so), fa3),
        call_ensures(Fa2PtxKernels::load, (build, &loader, head_dim), fa2),
    ensures
        ({
            let built = head_dim == 128 || head_dim == 256 || head_dim == 512;
            &&& !built ==> (fa2 matches Err(RvllmError::Attention {
                err: AttentionError::UnsupportedHeadDim { got, .. },
                ..
            }) && got == head_dim)
            &&& !built && !(so is Missing) ==> (fa3 matches Err(RvllmError::Attention {
                err: AttentionError::UnsupportedHeadDim { got, .. },
                ..
            }) && got == head_dim)
            &&& so is Missing || (built && so is OpenFailed) ==> (fa3 matches Err(
                RvllmError::Attention { err: AttentionError::Fa3SoMissing { path: p }, ctx },
            ) && p@ == path@ && ctx.head_dim == head_dim)
            &&& built && build is Host ==> (fa2 matches Ok(k) && k.head_dim == head_dim
                && k.entries is None)
        }),
{
}

} // verus!
