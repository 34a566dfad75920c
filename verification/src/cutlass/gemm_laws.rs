//! What the matrix-multiplication calls hold, said of the arguments of the
//! launches and of the names in the libraries.

use crate::arch::{Build, CompileTarget};
use crate::cutlass::lib_so::{
    first_missing, has_variant, nothing_missing_means_all_there, sibling_lies_below_the_kernels,
    v2_symbol_names, variant_symbol, CutlassBackend, CutlassLib, CutlassSm120Lib, CutlassSource,
    GemmCall, PrepCall, SizeOf, SoCandidate,
};
use crate::cutlass::plan::{Fp8GemmPlan, VariantId};
use crate::error::{CutlassError, LoaderError, RvllmError};
use crate::paths::joined;
use crate::symbols::{lookup, lookup_finds_an_entry, SoImage, SymbolTable};
use crate::text::decimal;
use vstd::prelude::*;

verus! {

/// Whether a call multiplies the first operand by the second into the output,
/// each operand with its own scales.
pub open spec fn multiplies(call: GemmCall, output: u64, a: u64, b: u64, a_scale: u64, b_scale: u64)
    -> bool {
    &&& call.output == output
    &&& call.a == a
    &&& call.b == b
    &&& call.a_scale == a_scale
    &&& call.b_scale == b_scale
}

/// Whether a call works on this stream with this much scratch.
pub open spec fn works_in(call: GemmCall, workspace: u64, workspace_size: usize, stream: u64)
    -> bool {
    call.workspace == workspace && call.workspace_size == workspace_size && call.stream == stream
}

/// A planned multiplication has the plan's shape, runs the kernel that was
/// resolved for the plan's variant among those without a residual, adds nothing,
/// and is refused exactly where the scratch is too small or that kernel is not
/// there.
pub proof fn planned_calls_name_their_operands(
    lib: CutlassLib,
    plan: Fp8GemmPlan,
    output: u64,
    a: u64,
    b: u64,
    a_scales: u64,
    b_scale: u64,
    workspace: u64,
    workspace_size: usize,
    stream: u64,
    r: Result<GemmCall, RvllmError>,
)
    requires
        call_ensures(
            CutlassLib::launch_fp8_gemm,
            (&lib, &plan, output, a, b, a_scales, b_scale, workspace, workspace_size, stream),
            r,
        ),
    ensures
        r matches Ok(call) ==> {
            &&& multiplies(call, output, a, b, a_scales, b_scale)
            &&& works_in(call, workspace, workspace_size, stream)
            &&& call.residual is None
            &&& call.m == plan.m as i32 && call.n == plan.n as i32 && call.k == plan.k as i32
            &&& lib.entries->0.fp8_gemm@[plan.variant.0] == call.entry
        },
        r is Ok <==> workspace_size >= plan.workspace_bytes && lib.entries is Some
            && lib.entries->0.fp8_gemm@.contains_key(plan.variant.0),
        workspace_size < plan.workspace_bytes ==> (r matches Err(
            RvllmError::Cutlass { err: CutlassError::WorkspaceTooSmall { needed, got }, .. },
        ) && needed == plan.workspace_bytes && got == workspace_size),
{
}

/// A planned multiplication with a residual is one that adds the tensor it was
/// given, with a kernel from among those that can.
pub proof fn residual_calls_name_their_operands(
    lib: CutlassLib,
    plan: Fp8GemmPlan,
    output: u64,
    a: u64,
    b: u64,
    a_scales: u64,
    b_scale: u64,
    residual: u64,
    workspace: u64,
    workspace_size: usize,
    stream: u64,
    r: Result<GemmCall, RvllmError>,
)
    requires
        call_ensures(
            CutlassLib::launch_fp8_gemm_residual,
            (
                &lib,
                &plan,
                output,
                a,
                b,
                a_scales,
                b_scale,
                residual,
                workspace,
                workspace_size,
                stream,
            ),
            r,
        ),
    ensures
        r matches Ok(call) ==> {
            &&& multiplies(call, output, a, b, a_scales, b_scale)
            &&& works_in(call, workspace, workspace_size, stream)
            &&& call.residual == Some(residual)
            &&& call.m == plan.m as i32 && call.n == plan.n as i32 && call.k == plan.k as i32
            &&& lib.entries->0.fp8_gemm_residual@[plan.variant.0] == call.entry
        },
        r is Ok <==> workspace_size >= plan.workspace_bytes && lib.entries is Some
            && lib.entries->0.fp8_gemm_residual@.contains_key(plan.variant.0),
{
}

/// Calls with channel scales have the shape that they were given.
pub proof fn channelscale_calls_name_their_operands(
    lib: CutlassLib,
    output: u64,
    a: u64,
    b: u64,
    row_scale: u64,
    col_scale: u64,
    m: i32,
    n: i32,
    k: i32,
    workspace: u64,
    workspace_size: usize,
    stream: u64,
    r: Result<GemmCall, RvllmError>,
)
    requires
        call_ensures(
            CutlassLib::launch_fp8_gemm_channelscale,
            (
                &lib,
                output,
                a,
                b,
                row_scale,
                col_scale,
                m,
                n,
                k,
                workspace,
                workspace_size,
                stream,
            ),
            r,
        ),
    ensures
        r matches Ok(call) ==> {
            &&& multiplies(call, output, a, b, row_scale, col_scale)
            &&& works_in(call, workspace, workspace_size, stream)
            &&& call.residual is None
            &&& call.m == m && call.n == n && call.k == k
            &&& lib.entries->0.fp8_gemm_channelscale == Some(call.entry)
        },
        r is Ok <==> lib.entries is Some && lib.entries->0.fp8_gemm_channelscale is Some,
{
}

/// Calls with block scales have the shape that they were given.
pub proof fn blockscale_calls_name_their_operands(
    lib: CutlassSm120Lib,
    output: u64,
    a: u64,
    b: u64,
    a_scale_sfa: u64,
    b_scale_sfb: u64,
    m: i32,
    n: i32,
    k: i32,
    workspace: u64,
    workspace_size: usize,
    stream: u64,
    r: Result<GemmCall, RvllmError>,
)
    requires
        call_ensures(
            CutlassSm120Lib::launch_fp8_gemm_blockscale,
            (
                &lib,
                output,
                a,
                b,
                a_scale_sfa,
                b_scale_sfb,
                m,
                n,
                k,
                workspace,
                workspace_size,
                stream,
            ),
            r,
        ),
    ensures
        r matches Ok(call) ==> {
            &&& multiplies(call, output, a, b, a_scale_sfa, b_scale_sfb)
            &&& works_in(call, workspace, workspace_size, stream)
            &&& call.residual is None
            &&& call.m == m && call.n == n && call.k == k
            &&& lib.entries->0.fp8_gemm_blockscale == Some(call.entry)
        },
        r is Ok <==> lib.entries is Some && lib.entries->0.fp8_gemm_blockscale is Some,
{
}

/// The scales of the two operands are laid out by a kernel each, from where they
/// lie to where they are wanted, and their scratch is asked for with the same
/// two extents.
pub proof fn scale_layouts_name_their_operands(
    lib: CutlassSm120Lib,
    src: u64,
    dst: u64,
    outer: i32,
    inner: i32,
    stream: u64,
    first: Result<PrepCall, RvllmError>,
    second: Result<PrepCall, RvllmError>,
    first_size: SizeOf,
    second_size: SizeOf,
)
    requires
        call_ensures(
            CutlassSm120Lib::launch_prep_sfa,
            (&lib, src, dst, outer, inner, stream),
            first,
        ),
        call_ensures(
            CutlassSm120Lib::launch_prep_sfb,
            (&lib, src, dst, outer, inner, stream),
            second,
        ),
        call_ensures(CutlassSm120Lib::sfa_bytes, (&lib, outer, inner), first_size),
        call_ensures(CutlassSm120Lib::sfb_bytes, (&lib, outer, inner), second_size),
        lib.entries is Some,
    ensures
        first matches Ok(call) ==> call.src == src && call.dst == dst && call.dim_outer == outer
            && call.dim_inner == inner && call.stream == stream && Some(call.entry)
            == lib.entries->0.prep_sfa,
        second matches Ok(call) ==> call.src == src && call.dst == dst && call.dim_outer == outer
            && call.dim_inner == inner && call.stream == stream && Some(call.entry)
            == lib.entries->0.prep_sfb,
        first is Ok <==> lib.entries->0.prep_sfa is Some,
        second is Ok <==> lib.entries->0.prep_sfb is Some,
        match lib.entries->0.sfa_bytes {
            Some(entry) => first_size == (SizeOf::AskScales { entry, outer, inner }),
            None => first_size == SizeOf::Bytes(0),
        },
        match lib.entries->0.sfb_bytes {
            Some(entry) => second_size == (SizeOf::AskScales { entry, outer, inner }),
            None => second_size == SizeOf::Bytes(0),
        },
{
}

/// A kernel library that was taken over holds, for every variant of the policy,
/// the address that the library has under the variant's name: variants below 100
/// are numbered from zero, those from 100 on add a residual and are numbered from
/// zero again. It holds no other variants.
pub proof fn kernels_are_found_by_variant(
    path: String,
    table: SymbolTable,
    policy: Vec<VariantId>,
    lib: CutlassLib,
    v: u32,
)
    requires
        call_ensures(
            CutlassLib::load,
            (path, SoImage::Open(table), &policy),
            Ok::<CutlassLib, RvllmError>(lib),
        ),
    ensures
        lib.so_path@ == path@,
        lib.entries is Some,
        ({
            let e = lib.entries->0;
            &&& e.fp8_gemm@.contains_key(v) <==> v < 100 && policy@.contains(VariantId(v))
            &&& e.fp8_gemm_residual@.contains_key(v) <==> v >= 100 && policy@.contains(
                VariantId(v),
            )
            &&& e.fp8_gemm_ws@.contains_key(v) <==> e.fp8_gemm@.contains_key(v)
            &&& e.fp8_gemm_residual_ws@.contains_key(v) <==> e.fp8_gemm_residual@.contains_key(v)
            &&& v < 100 && policy@.contains(VariantId(v)) ==> {
                let name = "cutlass_fp8_gemm_v"@ + decimal(v as nat);
                &&& table@.contains((name, e.fp8_gemm@[v]))
                &&& table@.contains((name + "_workspace_size"@, e.fp8_gemm_ws@[v]))
            }
            &&& v >= 100 && policy@.contains(VariantId(v)) ==> {
                let name = "cutlass_fp8_gemm_residual_v"@ + decimal((v - 100) as nat);
                &&& table@.contains((name, e.fp8_gemm_residual@[v]))
                &&& table@.contains((name + "_workspace_size"@, e.fp8_gemm_residual_ws@[v]))
            }
        }),
{
    nothing_missing_means_all_there(table@, policy@);
    let name = variant_symbol(VariantId(v));
    lookup_finds_an_entry(table@, name);
    lookup_finds_an_entry(table@, name + "_workspace_size"@);
    if policy@.contains(VariantId(v)) {
        let i = choose|i: int| 0 <= i < policy@.len() && policy@[i] == VariantId(v);
        assert(has_variant(table@, policy@[i]));
    }
}

/// A kernel library is taken over exactly where both names of every variant of
/// the policy are in it.
pub proof fn libraries_must_have_the_policy(
    path: String,
    table: SymbolTable,
    policy: Vec<VariantId>,
    r: Result<CutlassLib, RvllmError>,
)
    requires
        call_ensures(CutlassLib::load, (path, SoImage::Open(table), &policy), r),
    ensures
        r is Ok <==> forall|i: int|
            0 <= i < policy@.len() ==> lookup(
                table@,
                variant_symbol(#[trigger] policy@[i]),
            ) is Some && lookup(table@, variant_symbol(policy@[i]) + "_workspace_size"@) is Some,
{
    nothing_missing_means_all_there(table@, policy@);
    if r is Ok {
        assert forall|i: int| 0 <= i < policy@.len() implies lookup(
            table@,
            variant_symbol(#[trigger] policy@[i]),
        ) is Some && lookup(table@, variant_symbol(policy@[i]) + "_workspace_size"@) is Some by {
            assert(has_variant(table@, policy@[i]));
        }
    } else {
        assert(exists|i: int|
            0 <= i < policy@.len() && !has_variant(
                table@,
                #[trigger] policy@[i],
            ));
    }
}

/// The entry points of the sm_120 library are those that it has under their
/// names, and a name that it lacks gives none.
pub proof fn sm120_entries_are_found_by_name(
    path: String,
    table: SymbolTable,
    lib: CutlassSm120Lib,
)
    requires
        call_ensures(
            CutlassSm120Lib::load,
            (path, SoImage::Open(table)),
            Ok::<CutlassSm120Lib, RvllmError>(lib),
        ),
    ensures
        lib.so_path@ == path@,
        lib.entries is Some,
        ({
            let e = lib.entries->0;
            let stem = "cutlass_fp8_gemm_blockscale_sm120"@;
            &&& e.fp8_gemm_blockscale == lookup(table@, stem)
            &&& e.fp8_gemm_blockscale_ws == lookup(table@, stem + "_workspace"@)
            &&& e.sfa_bytes == lookup(table@, stem + "_sfa_bytes"@)
            &&& e.sfb_bytes == lookup(table@, stem + "_sfb_bytes"@)
            &&& e.prep_sfa == lookup(table@, stem + "_prep_sfa"@)
            &&& e.prep_sfb == lookup(table@, stem + "_prep_sfb"@)
        }),
{
    reveal_strlit("cutlass_fp8_gemm_blockscale_sm120");
    reveal_strlit("_workspace");
    reveal_strlit("_sfa_bytes");
    reveal_strlit("_sfb_bytes");
    reveal_strlit("_prep_sfa");
    reveal_strlit("_prep_sfb");
    reveal_strlit("cutlass_fp8_gemm_blockscale_sm120_workspace");
    reveal_strlit("cutlass_fp8_gemm_blockscale_sm120_sfa_bytes");
    reveal_strlit("cutlass_fp8_gemm_blockscale_sm120_sfb_bytes");
    reveal_strlit("cutlass_fp8_gemm_blockscale_sm120_prep_sfa");
    reveal_strlit("cutlass_fp8_gemm_blockscale_sm120_prep_sfb");
    let stem = "cutlass_fp8_gemm_blockscale_sm120"@;
    assert(stem + "_workspace"@ =~= "cutlass_fp8_gemm_blockscale_sm120_workspace"@);
    assert(stem + "_sfa_bytes"@ =~= "cutlass_fp8_gemm_blockscale_sm120_sfa_bytes"@);
    assert(stem + "_sfb_bytes"@ =~= "cutlass_fp8_gemm_blockscale_sm120_sfb_bytes"@);
    assert(stem + "_prep_sfa"@ =~= "cutlass_fp8_gemm_blockscale_sm120_prep_sfa"@);
    assert(stem + "_prep_sfb"@ =~= "cutlass_fp8_gemm_blockscale_sm120_prep_sfb"@);
}

/// A backend hands planned multiplications to its kernel library: what comes of
/// them is what was asked for, and a backend without that library refuses them.
pub proof fn backends_pass_planned_calls_on(
    backend: CutlassBackend,
    plan: Fp8GemmPlan,
    output: u64,
    a: u64,
    b: u64,
    a_scales: u64,
    b_scale: u64,
    residual: u64,
    workspace: u64,
    workspace_size: usize,
    stream: u64,
    plain: Result<GemmCall, RvllmError>,
    adding: Result<GemmCall, RvllmError>,
)
    requires
        call_ensures(
            CutlassBackend::launch_fp8_gemm,
            (&backend, &plan, output, a, b, a_scales, b_scale, workspace, workspace_size, stream),
            plain,
        ),
        call_ensures(
            CutlassBackend::launch_fp8_gemm_residual,
            (
                &backend,
                &plan,
                output,
                a,
                b,
                a_scales,
                b_scale,
                residual,
                workspace,
                workspace_size,
                stream,
            ),
            adding,
        ),
    ensures
        plain matches Ok(call) ==> {
            &&& multiplies(call, output, a, b, a_scales, b_scale)
            &&& works_in(call, workspace, workspace_size, stream)
            &&& call.residual is None
            &&& call.m == plan.m as i32 && call.n == plan.n as i32 && call.k == plan.k as i32
            &&& backend is So
            &&& backend->So_0.entries->0.fp8_gemm@[plan.variant.0] == call.entry
        },
        adding matches Ok(call) ==> {
            &&& multiplies(call, output, a, b, a_scales, b_scale)
            &&& works_in(call, workspace, workspace_size, stream)
            &&& call.residual == Some(residual)
            &&& call.m == plan.m as i32 && call.n == plan.n as i32 && call.k == plan.k as i32
            &&& backend is So
            &&& backend->So_0.entries->0.fp8_gemm_residual@[plan.variant.0] == call.entry
        },
        plain is Ok <==> backend is So && backend->So_0.entries is Some && workspace_size
            >= plan.workspace_bytes && backend->So_0.entries->0.fp8_gemm@.contains_key(
            plan.variant.0,
        ),
        adding is Ok <==> backend is So && backend->So_0.entries is Some && workspace_size
            >= plan.workspace_bytes && backend->So_0.entries->0.fp8_gemm_residual@.contains_key(
            plan.variant.0,
        ),
{
}

/// A backend hands multiplications with channel scales to its kernel library and
/// those with block scales to its sm_120 library; a backend without the library
/// refuses them.
pub proof fn backends_pass_scaled_calls_on(
    backend: CutlassBackend,
    output: u64,
    a: u64,
    b: u64,
    a_scale: u64,
    b_scale: u64,
    m: i32,
    n: i32,
    k: i32,
    workspace: u64,
    workspace_size: usize,
    stream: u64,
    channel: Result<GemmCall, RvllmError>,
    block: Result<GemmCall, RvllmError>,
)
    requires
        call_ensures(
            CutlassBackend::launch_fp8_gemm_channelscale,
            (
                &backend,
                output,
                a,
                b,
                a_scale,
                b_scale,
                m,
                n,
                k,
                workspace,
                workspace_size,
                stream,
            ),
            channel,
        ),
        call_ensures(
            CutlassBackend::launch_fp8_gemm_blockscale_sm120,
            (
                &backend,
                output,
                a,
                b,
                a_scale,
                b_scale,
                m,
                n,
                k,
                workspace,
                workspace_size,
                stream,
            ),
            block,
        ),
    ensures
        channel matches Ok(call) ==> {
            &&& multiplies(call, output, a, b, a_scale, b_scale)
            &&& works_in(call, workspace, workspace_size, stream)
            &&& call.m == m && call.n == n && call.k == k
            &&& Some(call.entry) == backend->So_0.entries->0.fp8_gemm_channelscale
        },
        block matches Ok(call) ==> {
            &&& multiplies(call, output, a, b, a_scale, b_scale)
            &&& works_in(call, workspace, workspace_size, stream)
            &&& call.m == m && call.n == n && call.k == k
            &&& Some(call.entry) == backend->SoSm120_0.entries->0.fp8_gemm_blockscale
        },
        channel is Ok <==> backend is So && backend->So_0.entries is Some
            && backend->So_0.entries->0.fp8_gemm_channelscale is Some,
        block is Ok <==> backend is SoSm120 && backend->SoSm120_0.entries is Some
            && backend->SoSm120_0.entries->0.fp8_gemm_blockscale is Some,
{
}

/// The scratch of a multiplication with block scales is asked of the sm_120
/// library, with the extents of the multiplication in their order.
pub proof fn blockscale_scratch_is_asked_for(
    lib: CutlassSm120Lib,
    m: i32,
    n: i32,
    k: i32,
    r: SizeOf,
)
    requires
        call_ensures(
            CutlassBackend::fp8_gemm_blockscale_sm120_workspace,
            (&CutlassBackend::SoSm120(lib), m, n, k),
            r,
        ),
        lib.entries is Some,
    ensures
        match lib.entries->0.fp8_gemm_blockscale_ws {
            Some(entry) => r == (SizeOf::AskWorkspace { entry, m, n, k }),
            None => r == SizeOf::Bytes(0),
        },
{
}

/// A call has succeeded exactly where its entry point answered zero; the error
/// names the variant and the stream of the call.
pub proof fn zero_is_success(
    call: GemmCall,
    prep: PrepCall,
    rc: i32,
    r: Result<(), RvllmError>,
    p: Result<(), RvllmError>,
)
    requires
        call_ensures(GemmCall::finish, (&call, rc), r),
        call_ensures(PrepCall::finish, (&prep, rc), p),
    ensures
        r is Ok <==> rc == 0,
        p is Ok <==> rc == 0,
        rc != 0 ==> (r matches Err(
            RvllmError::Cutlass { err: CutlassError::KernelLaunchFailed { variant, .. }, ctx },
        ) && variant == call.variant && ctx.stream == call.stream && ctx.kernel == call.kernel),
        rc != 0 ==> (p matches Err(RvllmError::Cutlass { err: _, ctx }) && ctx.stream
            == prep.stream && ctx.kernel == prep.kernel),
{
}

/// A device of capability 12.1 gets the sm_120 library, from the override where
/// that is a file and else from `sm_120` beside the kernel library; every other
/// device gets the kernel library; a host build gets none.
pub proof fn libraries_are_picked_by_device(
    build: Build,
    target: Option<CompileTarget>,
    dir: Seq<char>,
    name: Seq<char>,
    path: &str,
    chosen: Option<SoCandidate>,
    sibling_is_file: bool,
    r: CutlassSource,
)
    requires
        call_ensures(
            CutlassBackend::source_for,
            (build, target, path, &chosen, sibling_is_file),
            r,
        ),
        path@ == joined(dir, name),
        dir.len() > 0,
        dir.last() != '/',
        dir.last() != '.',
        name.len() > 0,
        !name.contains('/'),
        name != seq!['.'],
    ensures
        r is So <==> build is Cuda && target != Some(CompileTarget::Sm121),
        r matches CutlassSource::SoSm120(so) ==> so@ == if chosen is Some && chosen->0.is_file {
            chosen->0.path@
        } else {
            dir + "/"@ + "sm_120/libcutlass_sm120.so"@
        },
        r is SoSm120 <==> build is Cuda && target == Some(CompileTarget::Sm121) && (
        sibling_is_file || (chosen is Some && chosen->0.is_file)),
{
    sibling_lies_below_the_kernels(dir, name);
}

/// The backend of a device is made of the library that is picked for it, as it was
/// opened; where none is picked there is none, and a library that is not there is
/// an error that names its path.
pub proof fn backends_are_made_of_the_picked_library(
    build: Build,
    target: Option<CompileTarget>,
    path: String,
    at: &str,
    chosen: Option<SoCandidate>,
    sibling_is_file: bool,
    so: SoImage,
    policy: Vec<VariantId>,
    source: CutlassSource,
    r: Result<CutlassBackend, RvllmError>,
)
    requires
        at@ == path@,
        call_ensures(
            CutlassBackend::source_for,
            (build, target, at, &chosen, sibling_is_file),
            source,
        ),
        call_ensures(
            CutlassBackend::load_for,
            (build, target, path, &chosen, sibling_is_file, so, &policy),
            r,
        ),
    ensures
        match source {
            CutlassSource::Absent => r matches Ok(b) && b is Absent,
            CutlassSource::SoSm120(p) => {
                &&& r matches Ok(b) ==> (b matches CutlassBackend::SoSm120(lib) && lib.so_path@
                    == p@)
                &&& r is Ok <==> so is Open || so is Unlinked
            },
            CutlassSource::So => {
                &&& r matches Ok(b) ==> (b matches CutlassBackend::So(lib) && lib.so_path@ == path@)
                &&& so is Missing || so is OpenFailed ==> r is Err
                &&& so is Unlinked ==> r is Ok
            },
        },
{
}

/// A variant's two names differ in the suffix of the workspace query alone.
pub proof fn workspace_queries_are_named_after_kernels(v: VariantId, r: (String, String))
    requires
        call_ensures(v2_symbol_names, (v,), r),
    ensures
        r.1@ == r.0@ + "_workspace_size"@,
        v.0 < 100 ==> r.0@ == "cutlass_fp8_gemm_v"@ + decimal(v.0 as nat),
        v.0 >= 100 ==> r.0@ == "cutlass_fp8_gemm_residual_v"@ + decimal((v.0 - 100) as nat),
{
}

/// A backend's path is that of its library.
pub proof fn backends_know_their_path(
    so: CutlassLib,
    sm120: CutlassSm120Lib,
    a: String,
    b: String,
    c: String,
)
    requires
        call_ensures(CutlassBackend::so_path, (&CutlassBackend::So(so),), a),
        call_ensures(CutlassBackend::so_path, (&CutlassBackend::SoSm120(sm120),), b),
        call_ensures(CutlassBackend::so_path, (&CutlassBackend::Absent,), c),
    ensures
        a@ == so.so_path@,
        b@ == sm120.so_path@,
        c@.len() == 0,
{
}

/// A library that is not there, or that lacks a variant of the policy, is named by
/// its path, and the first variant that it lacks by its number.
pub proof fn missing_libraries_are_named(
    path: String,
    so: SoImage,
    policy: Vec<VariantId>,
    r: Result<CutlassLib, RvllmError>,
    e: RvllmError,
)
    requires
        call_ensures(CutlassLib::load, (path, so, &policy), r),
        r == Err::<CutlassLib, RvllmError>(e),
    ensures
        e matches RvllmError::Loader { err: LoaderError::Corrupt { detail }, ctx } && {
            &&& ctx.path@ == path@
            &&& so is Missing || so is OpenFailed ==> path@.is_suffix_of(detail@)
            &&& so matches SoImage::Open(table) ==> exists|i: int|
                0 <= i < policy@.len() && !has_variant(table@, #[trigger] policy@[i]) && decimal(
                    policy@[i].0 as nat,
                ).is_suffix_of(detail@) && forall|j: int|
                    0 <= j < i ==> has_variant(table@, #[trigger] policy@[j])
        },
{
    if so is Open {
        first_missing_is_first(so->Open_0@, policy@);
    }
}

proof fn first_missing_is_first(table: Seq<(Seq<char>, u64)>, policy: Seq<VariantId>)
    ensures
        first_missing(table, policy) matches Some(v) ==> exists|i: int|
            0 <= i < policy.len() && (#[trigger] policy[i]) == v && !has_variant(table, v)
                && forall|j: int| 0 <= j < i ==> has_variant(table, #[trigger] policy[j]),
    decreases policy.len(),
{
    if policy.len() > 0 {
        let rest = policy.drop_last();
        first_missing_is_first(table, rest);
        nothing_missing_means_all_there(table, rest);
        if first_missing(table, rest) is Some {
            let v = first_missing(table, rest)->0;
            let i = choose|i: int|
                0 <= i < rest.len() && (#[trigger] rest[i]) == v && !has_variant(table, v)
                    && forall|j: int| 0 <= j < i ==> has_variant(table, #[trigger] rest[j]);
            assert(policy[i] == v);
            assert forall|j: int| 0 <= j < i implies has_variant(table, #[trigger] policy[j]) by {
                assert(rest[j] == policy[j]);
            }
        } else if first_missing(table, policy) is Some {
            let k = policy.len() - 1;
            assert(policy[k] == policy.last());
            assert forall|j: int| 0 <= j < k implies has_variant(table, #[trigger] policy[j]) by {
                assert(rest[j] == policy[j]);
            }
        }
    }
}

} // verus!
