//! `libcutlass_kernels.so` and `libcutlass_sm120.so`: resolving their entry
//! points and preparing calls of them.
//!
//! Every variant that the autotune policy names is resolved when the library is
//! loaded. One that is missing is an error there, so that the engine refuses to
//! start rather than run another kernel.

use crate::arch::{Build, CompileTarget};
use crate::cutlass::plan::{Fp8GemmPlan, VariantId};
use crate::error::{
    CudaErrorKind, CutlassCtx, CutlassError, LoaderCtx, LoaderError, RvllmError,
};
use crate::paths::{join, joined, parent_end, parent_of, parent_undoes_join};
use crate::symbols::{lookup, SoImage};
use crate::text::{decimal, decimal_of, empty_text};
use std::collections::BTreeMap;
use vstd::prelude::*;

verus! {

broadcast use vstd::std_specs::btree::group_btree_axioms;

/// The first variant whose kernels add a residual.
pub const FIRST_RESIDUAL_VARIANT: u32 = 100;

/// The part of a symbol name that is shared by a variant's kernel and its
/// workspace query.
pub open spec fn variant_symbol(vid: VariantId) -> Seq<char> {
    if vid.0 >= FIRST_RESIDUAL_VARIANT {
        "cutlass_fp8_gemm_residual_v"@ + decimal((vid.0 - FIRST_RESIDUAL_VARIANT) as nat)
    } else {
        "cutlass_fp8_gemm_v"@ + decimal(vid.0 as nat)
    }
}

/// The name of a variant's workspace query.
pub open spec fn variant_ws_symbol(vid: VariantId) -> Seq<char> {
    variant_symbol(vid) + "_workspace_size"@
}

/// The symbol names of a variant's kernel and of its workspace query.
pub fn v2_symbol_names(vid: VariantId) -> (r: (String, String))
    ensures
        r.0@ == variant_symbol(vid),
        r.1@ == variant_ws_symbol(vid),
{
    let name = if vid.0 >= FIRST_RESIDUAL_VARIANT {
        "cutlass_fp8_gemm_residual_v".to_owned().concat(
            decimal_of((vid.0 - FIRST_RESIDUAL_VARIANT) as u64).as_str(),
        )
    } else {
        "cutlass_fp8_gemm_v".to_owned().concat(decimal_of(vid.0 as u64).as_str())
    };
    let ws = name.clone().concat("_workspace_size");
    (name, ws)
}

/// Different variants have different symbols.
pub proof fn variant_symbols_are_distinct(a: VariantId, b: VariantId)
    requires
        a != b,
    ensures
        variant_symbol(a) != variant_symbol(b),
{
    let residual = a.0 >= FIRST_RESIDUAL_VARIANT;
    let prefix = if residual {
        "cutlass_fp8_gemm_residual_v"@
    } else {
        "cutlass_fp8_gemm_v"@
    };
    let base: int = if residual {
        FIRST_RESIDUAL_VARIANT as int
    } else {
        0
    };
    reveal_strlit("cutlass_fp8_gemm_residual_v");
    reveal_strlit("cutlass_fp8_gemm_v");
    if residual != (b.0 >= FIRST_RESIDUAL_VARIANT) {
        assert(variant_symbol(a)[17] == prefix[17]);
        assert(variant_symbol(a)[17] != variant_symbol(b)[17]);
    } else if variant_symbol(a) == variant_symbol(b) {
        let n = prefix.len() as int;
        assert(variant_symbol(a).skip(n) =~= decimal((a.0 - base) as nat));
        assert(variant_symbol(b).skip(n) =~= decimal((b.0 - base) as nat));
        crate::text::decimal_is_injective((a.0 - base) as nat, (b.0 - base) as nat);
    }
}

/// Whether `e` says that there is no CUTLASS library at `path`.
pub open spec fn is_so_missing(e: RvllmError, path: Seq<char>) -> bool {
    e matches RvllmError::Loader { err: LoaderError::Corrupt { detail }, ctx } && detail@
        == "libcutlass_kernels.so not at "@ + path && ctx.path@ == path && ctx.tensor is None
}

/// Whether `e` says that the library at `path` lacks a variant.
pub open spec fn is_variant_missing(e: RvllmError, path: Seq<char>, vid: VariantId) -> bool {
    e matches RvllmError::Loader { err: LoaderError::Corrupt { detail }, ctx } && detail@
        == "libcutlass_kernels.so at "@ + path + " missing variant "@ + decimal(vid.0 as nat)
        && ctx.path@ == path && ctx.tensor is None
}

fn into_cutlass_so_missing(path: &str) -> (r: RvllmError)
    ensures
        is_so_missing(r, path@),
{
    RvllmError::Loader {
        err: LoaderError::Corrupt {
            detail: "libcutlass_kernels.so not at ".to_owned().concat(path),
        },
        ctx: LoaderCtx { path: path.to_owned(), tensor: None },
    }
}

fn into_cutlass_variant_missing(path: &str, vid: VariantId) -> (r: RvllmError)
    ensures
        is_variant_missing(r, path@, vid),
{
    let mut detail = "libcutlass_kernels.so at ".to_owned().concat(path);
    detail.append(" missing variant ");
    detail.append(decimal_of(vid.0 as u64).as_str());
    RvllmError::Loader {
        err: LoaderError::Corrupt { detail },
        ctx: LoaderCtx { path: path.to_owned(), tensor: None },
    }
}

/// The entry points of the policy's variants, by variant.
#[derive(Debug)]
pub struct CutlassEntries {
    pub fp8_gemm: BTreeMap<u32, u64>,
    pub fp8_gemm_ws: BTreeMap<u32, u64>,
    pub fp8_gemm_residual: BTreeMap<u32, u64>,
    pub fp8_gemm_residual_ws: BTreeMap<u32, u64>,
    pub fp8_gemm_channelscale: Option<u64>,
    pub fp8_gemm_channelscale_ws: Option<u64>,
}

/// `libcutlass_kernels.so` as loaded.
#[derive(Debug)]
pub struct CutlassLib {
    pub so_path: String,
    /// `None` in a host build.
    pub entries: Option<CutlassEntries>,
}

/// Whether both symbols of a variant are in the table.
pub open spec fn has_variant(table: Seq<(Seq<char>, u64)>, vid: VariantId) -> bool {
    lookup(table, variant_symbol(vid)) is Some && lookup(table, variant_ws_symbol(vid)) is Some
}

/// The first variant of the policy that the table lacks, if any.
pub open spec fn first_missing(table: Seq<(Seq<char>, u64)>, policy: Seq<VariantId>) -> Option<
    VariantId,
>
    decreases policy.len(),
{
    if policy.len() == 0 {
        None
    } else if first_missing(table, policy.drop_last()) is Some {
        first_missing(table, policy.drop_last())
    } else if has_variant(table, policy.last()) {
        None
    } else {
        Some(policy.last())
    }
}

/// Whether a variant is in the policy, with or without a residual.
pub open spec fn in_policy(policy: Seq<VariantId>, residual: bool, variant: u32) -> bool {
    policy.contains(VariantId(variant)) && (variant >= FIRST_RESIDUAL_VARIANT) == residual
}

/// The kernels of the policy's variants of one kind.
pub open spec fn kernels_of(
    table: Seq<(Seq<char>, u64)>,
    policy: Seq<VariantId>,
    residual: bool,
) -> Map<u32, u64> {
    Map::new(
        |v: u32| in_policy(policy, residual, v),
        |v: u32| lookup(table, variant_symbol(VariantId(v)))->0,
    )
}

/// The workspace queries of the policy's variants of one kind.
pub open spec fn queries_of(
    table: Seq<(Seq<char>, u64)>,
    policy: Seq<VariantId>,
    residual: bool,
) -> Map<u32, u64> {
    Map::new(
        |v: u32| in_policy(policy, residual, v),
        |v: u32| lookup(table, variant_ws_symbol(VariantId(v)))->0,
    )
}

/// The loader finds nothing missing exactly where every variant of the policy
/// is in the table.
pub proof fn nothing_missing_means_all_there(
    table: Seq<(Seq<char>, u64)>,
    policy: Seq<VariantId>,
)
    ensures
        first_missing(table, policy) is None <==> forall|i: int|
            0 <= i < policy.len() ==> has_variant(table, #[trigger] policy[i]),
        first_missing(table, policy) matches Some(v) ==> policy.contains(v) && !has_variant(
            table,
            v,
        ),
    decreases policy.len(),
{
    if policy.len() > 0 {
        let rest = policy.drop_last();
        nothing_missing_means_all_there(table, rest);
        if first_missing(table, rest) is None {
            assert forall|i: int|
                0 <= i < policy.len() && has_variant(table, policy.last()) implies has_variant(
                table,
                #[trigger] policy[i],
            ) by {
                if i < policy.len() - 1 {
                    assert(rest[i] == policy[i]);
                }
            }
        } else {
            let v = first_missing(table, rest)->0;
            let i = choose|i: int| 0 <= i < rest.len() && rest[i] == v;
            assert(policy[i] == v);
        }
        assert(policy[policy.len() - 1] == policy.last());
    }
}

impl CutlassEntries {
    /// Whether the entries are those that `table` has for the policy.
    pub open spec fn resolved_from(
        self,
        table: Seq<(Seq<char>, u64)>,
        policy: Seq<VariantId>,
    ) -> bool {
        &&& self.fp8_gemm@ == kernels_of(table, policy, false)
        &&& self.fp8_gemm_ws@ == queries_of(table, policy, false)
        &&& self.fp8_gemm_residual@ == kernels_of(table, policy, true)
        &&& self.fp8_gemm_residual_ws@ == queries_of(table, policy, true)
        &&& self.fp8_gemm_channelscale == lookup(table, "cutlass_fp8_gemm_channelscale"@)
        &&& self.fp8_gemm_channelscale_ws == lookup(
            table,
            "cutlass_fp8_gemm_channelscale_workspace"@,
        )
    }
}

/// Maps that grow by one variant grow by its entry.
proof fn policy_grows_by_one(
    table: Seq<(Seq<char>, u64)>,
    policy: Seq<VariantId>,
    n: int,
    residual: bool,
)
    requires
        0 <= n < policy.len(),
        has_variant(table, policy[n]),
    ensures
        ({
            let v = policy[n];
            let before = policy.take(n);
            let after = policy.take(n + 1);
            if (v.0 >= FIRST_RESIDUAL_VARIANT) == residual {
                &&& kernels_of(table, after, residual) == kernels_of(table, before, residual).insert(
                    v.0,
                    lookup(table, variant_symbol(v))->0,
                )
                &&& queries_of(table, after, residual) == queries_of(table, before, residual).insert(
                    v.0,
                    lookup(table, variant_ws_symbol(v))->0,
                )
            } else {
                &&& kernels_of(table, after, residual) == kernels_of(table, before, residual)
                &&& queries_of(table, after, residual) == queries_of(table, before, residual)
            }
        }),
{
    let v = policy[n];
    let before = policy.take(n);
    let after = policy.take(n + 1);
    assert(after =~= before.push(v));
    assert forall|w: VariantId| after.contains(w) <==> before.contains(w) || w == v by {
        if before.contains(w) {
            let i = choose|i: int| 0 <= i < before.len() && before[i] == w;
            assert(after[i] == w);
        }
        if w == v {
            assert(after[n] == w);
        }
        if after.contains(w) && w != v {
            let i = choose|i: int| 0 <= i < after.len() && after[i] == w;
            assert(before[i] == w);
        }
    }
    if (v.0 >= FIRST_RESIDUAL_VARIANT) == residual {
        assert(kernels_of(table, after, residual) =~= kernels_of(table, before, residual).insert(
            v.0,
            lookup(table, variant_symbol(v))->0,
        ));
        assert(queries_of(table, after, residual) =~= queries_of(table, before, residual).insert(
            v.0,
            lookup(table, variant_ws_symbol(v))->0,
        ));
    } else {
        assert(kernels_of(table, after, residual) =~= kernels_of(table, before, residual));
        assert(queries_of(table, after, residual) =~= queries_of(table, before, residual));
    }
}

/// A call of a CUTLASS entry point.
#[derive(Copy, Clone, Debug)]
pub struct GemmCall {
    pub entry: u64,
    pub output: u64,
    pub a: u64,
    pub b: u64,
    pub a_scale: u64,
    pub b_scale: u64,
    /// The tensor that a residual variant adds; other entry points do not take
    /// this argument.
    pub residual: Option<u64>,
    pub m: i32,
    pub n: i32,
    pub k: i32,
    pub workspace: u64,
    pub workspace_size: usize,
    pub stream: u64,
    /// Not arguments: what an error on the call reports.
    pub kernel: &'static str,
    pub variant: u32,
}

/// The error of an entry point that failed or is missing.
pub open spec fn gemm_error(
    variant: u32,
    cuda: CudaErrorKind,
    kernel: &'static str,
    stream: u64,
) -> RvllmError {
    RvllmError::Cutlass {
        err: CutlassError::KernelLaunchFailed { variant, cuda },
        ctx: CutlassCtx { kernel, stream },
    }
}

/// The error of an operation that the backend has no kernel for.
pub open spec fn gemm_not_available(
    op: &'static str,
    kernel: &'static str,
    stream: u64,
) -> RvllmError {
    RvllmError::Cutlass {
        err: CutlassError::FeatureNotAvailable { op },
        ctx: CutlassCtx { kernel, stream },
    }
}

fn missing_entry(kernel: &'static str, stream: u64) -> (r: RvllmError)
    ensures
        r == gemm_error(0, CudaErrorKind::Other, kernel, stream),
{
    RvllmError::cutlass(
        CutlassError::KernelLaunchFailed { variant: 0, cuda: CudaErrorKind::Other },
        CutlassCtx { kernel, stream },
    )
}

fn not_available(op: &'static str, kernel: &'static str, stream: u64) -> (r: RvllmError)
    ensures
        r == gemm_not_available(op, kernel, stream),
{
    RvllmError::cutlass(CutlassError::FeatureNotAvailable { op }, CutlassCtx { kernel, stream })
}

impl GemmCall {
    /// What the entry point's answer means: zero is success.
    pub fn finish(&self, rc: i32) -> (r: Result<(), RvllmError>)
        ensures
            r == if rc == 0 {
                Ok::<(), RvllmError>(())
            } else {
                Err(
                    gemm_error(self.variant, CudaErrorKind::LaunchFailed, self.kernel, self.stream),
                )
            },
    {
        if rc != 0 {
            return Err(
                RvllmError::cutlass(
                    CutlassError::KernelLaunchFailed {
                        variant: self.variant,
                        cuda: CudaErrorKind::LaunchFailed,
                    },
                    CutlassCtx { kernel: self.kernel, stream: self.stream },
                ),
            );
        }
        Ok(())
    }
}

impl CutlassLib {
    /// The kernel of a variant, with or without a residual.
    pub open spec fn kernel_of(self, variant: u32, residual: bool) -> Option<u64> {
        match self.entries {
            Some(e) => {
                let table = if residual {
                    e.fp8_gemm_residual@
                } else {
                    e.fp8_gemm@
                };
                if table.contains_key(variant) {
                    Some(table[variant])
                } else {
                    None
                }
            },
            None => None,
        }
    }

    /// The row- and column-scaled entry point, where the library has it.
    pub open spec fn channelscale(self) -> Option<u64> {
        match self.entries {
            Some(e) => e.fp8_gemm_channelscale,
            None => None,
        }
    }

    /// Takes over the library at `path` and resolves every variant of the
    /// policy.
    pub fn load(path: String, so: SoImage, policy_variants: &Vec<VariantId>) -> (r: Result<
        CutlassLib,
        RvllmError,
    >)
        ensures
            match so {
                SoImage::Missing | SoImage::OpenFailed => r is Err && is_so_missing(
                    r->Err_0,
                    path@,
                ),
                SoImage::Unlinked => r is Ok && r->Ok_0.so_path@ == path@ && r->Ok_0.entries is None,
                SoImage::Open(table) => match first_missing(table@, policy_variants@) {
                    Some(vid) => r is Err && is_variant_missing(r->Err_0, path@, vid),
                    None => r is Ok && r->Ok_0.so_path@ == path@ && r->Ok_0.entries is Some
                        && r->Ok_0.entries->0.resolved_from(table@, policy_variants@),
                },
            },
    {
        let table = match so {
            SoImage::Missing | SoImage::OpenFailed => {
                return Err(into_cutlass_so_missing(path.as_str()));
            },
            SoImage::Unlinked => {
                return Ok(CutlassLib { so_path: path, entries: None });
            },
            SoImage::Open(table) => table,
        };
        let mut fp8_gemm: BTreeMap<u32, u64> = BTreeMap::new();
        let mut fp8_gemm_ws: BTreeMap<u32, u64> = BTreeMap::new();
        let mut fp8_gemm_residual: BTreeMap<u32, u64> = BTreeMap::new();
        let mut fp8_gemm_residual_ws: BTreeMap<u32, u64> = BTreeMap::new();
        let ghost policy = policy_variants@;
        let mut i: usize = 0;
        proof {
            assert(policy.take(0) =~= Seq::empty());
            assert(fp8_gemm@ =~= kernels_of(table@, policy.take(0), false));
            assert(fp8_gemm_ws@ =~= queries_of(table@, policy.take(0), false));
            assert(fp8_gemm_residual@ =~= kernels_of(table@, policy.take(0), true));
            assert(fp8_gemm_residual_ws@ =~= queries_of(table@, policy.take(0), true));
            nothing_missing_means_all_there(table@, policy);
        }
        while i < policy_variants.len()
            invariant
                so == SoImage::Open(table),
                policy == policy_variants@,
                i <= policy.len(),
                first_missing(table@, policy.take(i as int)) is None,
                fp8_gemm@ == kernels_of(table@, policy.take(i as int), false),
                fp8_gemm_ws@ == queries_of(table@, policy.take(i as int), false),
                fp8_gemm_residual@ == kernels_of(table@, policy.take(i as int), true),
                fp8_gemm_residual_ws@ == queries_of(table@, policy.take(i as int), true),
            decreases policy.len() - i,
        {
            let vid = policy_variants[i];
            let (fn_name, ws_name) = v2_symbol_names(vid);
            proof {
                assert(policy.take(i + 1).drop_last() =~= policy.take(i as int));
                assert(policy.take(i + 1).last() == vid);
            }
            let f: u64 = match table.get(fn_name.as_str()) {
                Some(f) => f,
                None => {
                    proof {
                        missing_stays_first(table@, policy, i + 1);
                    }
                    return Err(into_cutlass_variant_missing(path.as_str(), vid));
                },
            };
            let w: u64 = match table.get(ws_name.as_str()) {
                Some(w) => w,
                None => {
                    proof {
                        missing_stays_first(table@, policy, i + 1);
                    }
                    return Err(into_cutlass_variant_missing(path.as_str(), vid));
                },
            };
            proof {
                policy_grows_by_one(table@, policy, i as int, true);
                policy_grows_by_one(table@, policy, i as int, false);
            }
            if vid.0 >= FIRST_RESIDUAL_VARIANT {
                fp8_gemm_residual.insert(vid.0, f);
                fp8_gemm_residual_ws.insert(vid.0, w);
            } else {
                fp8_gemm.insert(vid.0, f);
                fp8_gemm_ws.insert(vid.0, w);
            }
            i = i + 1;
        }
        proof {
            assert(policy.take(i as int) =~= policy);
        }
        let fp8_gemm_channelscale = table.get("cutlass_fp8_gemm_channelscale");
        let fp8_gemm_channelscale_ws = table.get("cutlass_fp8_gemm_channelscale_workspace");
        Ok(
            CutlassLib {
                so_path: path,
                entries: Some(
                    CutlassEntries {
                        fp8_gemm,
                        fp8_gemm_ws,
                        fp8_gemm_residual,
                        fp8_gemm_residual_ws,
                        fp8_gemm_channelscale,
                        fp8_gemm_channelscale_ws,
                    },
                ),
            },
        )
    }
}

/// What is missing from a prefix of the policy is what is missing from all of
/// it.
proof fn missing_stays_first(table: Seq<(Seq<char>, u64)>, policy: Seq<VariantId>, n: int)
    requires
        0 <= n <= policy.len(),
        first_missing(table, policy.take(n)) is Some,
    ensures
        first_missing(table, policy) == first_missing(table, policy.take(n)),
    decreases policy.len() - n,
{
    if n < policy.len() {
        assert(policy.take(n + 1).drop_last() =~= policy.take(n));
        missing_stays_first(table, policy, n + 1);
    } else {
        assert(policy.take(n) =~= policy);
    }
}

impl CutlassLib {
    /// What preparing a call of a policy variant gives: too small a workspace
    /// and a variant that was not resolved are refused; else the call, with the
    /// variant's entry point.
    pub open spec fn prepares(
        self,
        plan: Fp8GemmPlan,
        residual: bool,
        call: GemmCall,
        r: Result<GemmCall, RvllmError>,
    ) -> bool {
        match plan.workspace_checked(call.workspace_size) {
            Err(e) => r == Err::<GemmCall, RvllmError>(e),
            Ok(_) => match self.kernel_of(plan.variant.0, residual) {
                None => r is Err && is_variant_missing(r->Err_0, self.so_path@, plan.variant),
                Some(entry) => r == Ok::<GemmCall, RvllmError>(GemmCall { entry, ..call }),
            },
        }
    }

    /// Prepares a matrix multiplication without a residual. `workspace` may be
    /// null where the plan needs none.
    #[allow(clippy::too_many_arguments)]
    pub fn launch_fp8_gemm(
        &self,
        plan: &Fp8GemmPlan,
        output: u64,
        a: u64,
        b: u64,
        a_scales: u64,
        b_scale: u64,
        workspace: u64,
        workspace_size: usize,
        stream: u64,
    ) -> (r: Result<GemmCall, RvllmError>)
        ensures
            self.prepares(
                *plan,
                false,
                (GemmCall {
                    entry: 0,
                    output,
                    a,
                    b,
                    a_scale: a_scales,
                    b_scale,
                    residual: None,
                    m: plan.m as i32,
                    n: plan.n as i32,
                    k: plan.k as i32,
                    workspace,
                    workspace_size,
                    stream,
                    kernel: "fp8_gemm",
                    variant: plan.variant.0,
                }),
                r,
            ),
    {
        plan.check_workspace(workspace_size)?;
        let found = match &self.entries {
            Some(e) => e.fp8_gemm.get(&plan.variant.0),
            None => None,
        };
        let entry: u64 = match found {
            Some(entry) => *entry,
            None => {
                return Err(into_cutlass_variant_missing(self.so_path.as_str(), plan.variant));
            },
        };
        Ok(
            GemmCall {
                entry,
                output,
                a,
                b,
                a_scale: a_scales,
                b_scale,
                residual: None,
                m: plan.m as i32,
                n: plan.n as i32,
                k: plan.k as i32,
                workspace,
                workspace_size,
                stream,
                kernel: "fp8_gemm",
                variant: plan.variant.0,
            },
        )
    }

    /// Prepares a matrix multiplication whose epilogue adds `residual`.
    #[allow(clippy::too_many_arguments)]
    pub fn launch_fp8_gemm_residual(
        &self,
        plan: &Fp8GemmPlan,
        output: u64,
        a: u64,
        b: u64,
        a_scales: u64,
        b_scale: u64,
        residual: u64,
        workspace: u64,
        workspace_size: usize,
        stream: u64,
    ) -> (r: Result<GemmCall, RvllmError>)
        ensures
            self.prepares(
                *plan,
                true,
                (GemmCall {
                    entry: 0,
                    output,
                    a,
                    b,
                    a_scale: a_scales,
                    b_scale,
                    residual: Some(residual),
                    m: plan.m as i32,
                    n: plan.n as i32,
                    k: plan.k as i32,
                    workspace,
                    workspace_size,
                    stream,
                    kernel: "fp8_gemm_residual",
                    variant: plan.variant.0,
                }),
                r,
            ),
    {
        plan.check_workspace(workspace_size)?;
        let found = match &self.entries {
            Some(e) => e.fp8_gemm_residual.get(&plan.variant.0),
            None => None,
        };
        let entry: u64 = match found {
            Some(entry) => *entry,
            None => {
                return Err(into_cutlass_variant_missing(self.so_path.as_str(), plan.variant));
            },
        };
        Ok(
            GemmCall {
                entry,
                output,
                a,
                b,
                a_scale: a_scales,
                b_scale,
                residual: Some(residual),
                m: plan.m as i32,
                n: plan.n as i32,
                k: plan.k as i32,
                workspace,
                workspace_size,
                stream,
                kernel: "fp8_gemm_residual",
                variant: plan.variant.0,
            },
        )
    }

    /// Prepares a matrix multiplication scaled by row and by column.
    #[allow(clippy::too_many_arguments)]
    pub fn launch_fp8_gemm_channelscale(
        &self,
        output: u64,
        a: u64,
        b: u64,
        row_scale: u64,
        col_scale: u64,
        m: i32,
        n: i32,
        k: i32,
        workspace: u64,
        workspace_size: usize,
        stream: u64,
    ) -> (r: Result<GemmCall, RvllmError>)
        ensures
            r == self.channelscale_call(
                GemmCall {
                    entry: 0,
                    output,
                    a,
                    b,
                    a_scale: row_scale,
                    b_scale: col_scale,
                    residual: None,
                    m,
                    n,
                    k,
                    workspace,
                    workspace_size,
                    stream,
                    kernel: "fp8_gemm_channelscale",
                    variant: 0,
                },
            ),
    {
        let found = match &self.entries {
            Some(e) => e.fp8_gemm_channelscale,
            None => None,
        };
        let entry: u64 = match found {
            Some(entry) => entry,
            None => {
                return Err(missing_entry("fp8_gemm_channelscale (missing from .so)", stream));
            },
        };
        Ok(
            GemmCall {
                entry,
                output,
                a,
                b,
                a_scale: row_scale,
                b_scale: col_scale,
                residual: None,
                m,
                n,
                k,
                workspace,
                workspace_size,
                stream,
                kernel: "fp8_gemm_channelscale",
                variant: 0,
            },
        )
    }

    /// The row- and column-scaled call with the library's entry point.
    pub open spec fn channelscale_call(self, call: GemmCall) -> Result<GemmCall, RvllmError> {
        match self.channelscale() {
            Some(entry) => Ok(GemmCall { entry, ..call }),
            None => Err(
                gemm_error(
                    0,
                    CudaErrorKind::Other,
                    "fp8_gemm_channelscale (missing from .so)",
                    call.stream,
                ),
            ),
        }
    }
}

/// A file that may be a library, and whether it is there.
#[derive(Debug)]
pub struct SoCandidate {
    pub path: String,
    pub is_file: bool,
}

/// The path of a candidate that is a file.
pub open spec fn candidate_path(c: Option<SoCandidate>) -> Option<Seq<char>> {
    match c {
        Some(c) => if c.is_file {
            Some(c.path@)
        } else {
            None
        },
        None => None,
    }
}

/// Where the sm_120 library lies below the directory of the kernel library.
pub const SM120_SO_BELOW: &'static str = "sm_120/libcutlass_sm120.so";

/// The default place of the sm_120 library: below the directory that holds the
/// kernel library at `path`.
pub open spec fn sibling_path(path: Seq<char>) -> Option<Seq<char>> {
    match parent_end(path) {
        Some(n) => Some(joined(path.take(n), SM120_SO_BELOW@)),
        None => None,
    }
}

/// The default place of the sm_120 library, where the kernel library at `path`
/// is held by a directory.
pub fn sm120_sibling(path: &str) -> (r: Option<String>)
    ensures
        match sibling_path(path@) {
            Some(p) => r is Some && r->0@ == p,
            None => r is None,
        },
{
    match parent_of(path) {
        Some(dir) => Some(join(dir, SM120_SO_BELOW)),
        None => None,
    }
}

/// A kernel library in a directory has the sm_120 library in `sm_120` below that
/// directory.
pub proof fn sibling_lies_below_the_kernels(dir: Seq<char>, name: Seq<char>)
    requires
        dir.len() > 0,
        dir.last() != '/',
        dir.last() != '.',
        name.len() > 0,
        !name.contains('/'),
        name != seq!['.'],
    ensures
        sibling_path(joined(dir, name)) == Some(
            dir + "/"@ + "sm_120/libcutlass_sm120.so"@,
        ),
{
    reveal_strlit("/");
    parent_undoes_join(dir, name);
    assert(dir.push('/') =~= dir + "/"@);
}

/// The sm_120 library: the override where it is a file, else the default place
/// where that is one.
pub open spec fn sm120_path(
    env_override: Option<SoCandidate>,
    path: Seq<char>,
    sibling_is_file: bool,
) -> Option<Seq<char>> {
    match candidate_path(env_override) {
        Some(p) => Some(p),
        None => if sibling_is_file {
            sibling_path(path)
        } else {
            None
        },
    }
}

/// Picks the sm_120 library for the kernel library at `path`. `None` where
/// neither the override nor the file at the default place is there.
pub fn resolve_sm120_so_path(
    env_override: &Option<SoCandidate>,
    path: &str,
    sibling_is_file: bool,
) -> (r: Option<String>)
    ensures
        match sm120_path(*env_override, path@, sibling_is_file) {
            Some(p) => r is Some && r->0@ == p,
            None => r is None,
        },
{
    if let Some(c) = env_override {
        if c.is_file {
            return Some(c.path.clone());
        }
    }
    if sibling_is_file {
        return sm120_sibling(path);
    }
    None
}

/// Entry points of `libcutlass_sm120.so`. Each may be missing from an older
/// build.
#[derive(Copy, Clone, Debug)]
pub struct Sm120Entries {
    pub fp8_gemm_blockscale: Option<u64>,
    pub fp8_gemm_blockscale_ws: Option<u64>,
    pub sfa_bytes: Option<u64>,
    pub sfb_bytes: Option<u64>,
    pub prep_sfa: Option<u64>,
    pub prep_sfb: Option<u64>,
}

/// `libcutlass_sm120.so` as loaded.
#[derive(Debug)]
pub struct CutlassSm120Lib {
    pub so_path: String,
    /// `None` in a host build.
    pub entries: Option<Sm120Entries>,
}

/// A size in bytes: known here, or to be asked of a library.
#[derive(Copy, Clone, Debug, PartialEq, Eq, Structural)]
pub enum SizeOf {
    Bytes(usize),
    AskWorkspace { entry: u64, m: i32, n: i32, k: i32 },
    AskScales { entry: u64, outer: i32, inner: i32 },
}

/// A call of one of the kernels that lay scales out for the blockwise kernel.
#[derive(Copy, Clone, Debug)]
pub struct PrepCall {
    pub entry: u64,
    pub src: u64,
    pub dst: u64,
    pub dim_outer: i32,
    pub dim_inner: i32,
    pub stream: u64,
    /// Not an argument: what an error on the call reports.
    pub kernel: &'static str,
}

impl PrepCall {
    /// What the entry point's answer means: zero is success.
    pub fn finish(&self, rc: i32) -> (r: Result<(), RvllmError>)
        ensures
            r == if rc == 0 {
                Ok::<(), RvllmError>(())
            } else {
                Err(gemm_error(0, CudaErrorKind::LaunchFailed, self.kernel, self.stream))
            },
    {
        if rc != 0 {
            return Err(
                RvllmError::cutlass(
                    CutlassError::KernelLaunchFailed {
                        variant: 0,
                        cuda: CudaErrorKind::LaunchFailed,
                    },
                    CutlassCtx { kernel: self.kernel, stream: self.stream },
                ),
            );
        }
        Ok(())
    }
}

impl CutlassSm120Lib {
    /// What the library's symbols give.
    pub open spec fn entries_from(table: Seq<(Seq<char>, u64)>) -> Sm120Entries {
        Sm120Entries {
            fp8_gemm_blockscale: lookup(table, "cutlass_fp8_gemm_blockscale_sm120"@),
            fp8_gemm_blockscale_ws: lookup(table, "cutlass_fp8_gemm_blockscale_sm120_workspace"@),
            sfa_bytes: lookup(table, "cutlass_fp8_gemm_blockscale_sm120_sfa_bytes"@),
            sfb_bytes: lookup(table, "cutlass_fp8_gemm_blockscale_sm120_sfb_bytes"@),
            prep_sfa: lookup(table, "cutlass_fp8_gemm_blockscale_sm120_prep_sfa"@),
            prep_sfb: lookup(table, "cutlass_fp8_gemm_blockscale_sm120_prep_sfb"@),
        }
    }

    /// Whether `r` is what becomes of the library at `path`.
    pub open spec fn loads_as(
        path: Seq<char>,
        so: SoImage,
        r: Result<CutlassSm120Lib, RvllmError>,
    ) -> bool {
        match so {
            SoImage::Missing | SoImage::OpenFailed => r is Err && is_so_missing(r->Err_0, path),
            SoImage::Unlinked => r is Ok && r->Ok_0.so_path@ == path && r->Ok_0.entries is None,
            SoImage::Open(table) => r is Ok && r->Ok_0.so_path@ == path && r->Ok_0.entries == Some(
                Self::entries_from(table@),
            ),
        }
    }

    /// Takes over the library at `path`. Missing symbols are no error here: the
    /// caller decides what they mean.
    pub fn load(path: String, so: SoImage) -> (r: Result<CutlassSm120Lib, RvllmError>)
        ensures
            Self::loads_as(path@, so, r),
    {
        match so {
            SoImage::Missing | SoImage::OpenFailed => {
                Err(into_cutlass_so_missing(path.as_str()))
            },
            SoImage::Unlinked => Ok(CutlassSm120Lib { so_path: path, entries: None }),
            SoImage::Open(table) => {
                let entries = Sm120Entries {
                    fp8_gemm_blockscale: table.get("cutlass_fp8_gemm_blockscale_sm120"),
                    fp8_gemm_blockscale_ws: table.get(
                        "cutlass_fp8_gemm_blockscale_sm120_workspace",
                    ),
                    sfa_bytes: table.get("cutlass_fp8_gemm_blockscale_sm120_sfa_bytes"),
                    sfb_bytes: table.get("cutlass_fp8_gemm_blockscale_sm120_sfb_bytes"),
                    prep_sfa: table.get("cutlass_fp8_gemm_blockscale_sm120_prep_sfa"),
                    prep_sfb: table.get("cutlass_fp8_gemm_blockscale_sm120_prep_sfb"),
                };
                Ok(CutlassSm120Lib { so_path: path, entries: Some(entries) })
            },
        }
    }

    /// The resolved entry points; none of them in a host build.
    pub open spec fn resolved(self) -> Sm120Entries {
        match self.entries {
            Some(e) => e,
            None => Sm120Entries {
                fp8_gemm_blockscale: None,
                fp8_gemm_blockscale_ws: None,
                sfa_bytes: None,
                sfb_bytes: None,
                prep_sfa: None,
                prep_sfb: None,
            },
        }
    }

    fn resolved_entries(&self) -> (r: Sm120Entries)
        ensures
            r == self.resolved(),
    {
        match &self.entries {
            Some(e) => *e,
            None => Sm120Entries {
                fp8_gemm_blockscale: None,
                fp8_gemm_blockscale_ws: None,
                sfa_bytes: None,
                sfb_bytes: None,
                prep_sfa: None,
                prep_sfb: None,
            },
        }
    }

    /// The workspace for this problem shape; zero where the query is missing.
    pub open spec fn workspace(self, m: i32, n: i32, k: i32) -> SizeOf {
        match self.resolved().fp8_gemm_blockscale_ws {
            Some(entry) => SizeOf::AskWorkspace { entry, m, n, k },
            None => SizeOf::Bytes(0),
        }
    }

    /// The workspace for this problem shape; zero where the query is missing.
    pub fn workspace_size(&self, m: i32, n: i32, k: i32) -> (r: SizeOf)
        ensures
            r == self.workspace(m, n, k),
    {
        match self.resolved_entries().fp8_gemm_blockscale_ws {
            Some(entry) => SizeOf::AskWorkspace { entry, m, n, k },
            None => SizeOf::Bytes(0),
        }
    }

    /// The question about the scratch for the activation scales.
    pub open spec fn sfa_query(self, m: i32, k: i32) -> SizeOf {
        match self.resolved().sfa_bytes {
            Some(entry) => SizeOf::AskScales { entry, outer: m, inner: k },
            None => SizeOf::Bytes(0),
        }
    }

    /// Scratch for the activation scales; zero where the query is missing, and
    /// zero means that the blockwise path is not available.
    pub fn sfa_bytes(&self, m: i32, k: i32) -> (r: SizeOf)
        ensures
            r == self.sfa_query(m, k),
    {
        match self.resolved_entries().sfa_bytes {
            Some(entry) => SizeOf::AskScales { entry, outer: m, inner: k },
            None => SizeOf::Bytes(0),
        }
    }

    /// The question about the scratch for the weight scales.
    pub open spec fn sfb_query(self, n: i32, k: i32) -> SizeOf {
        match self.resolved().sfb_bytes {
            Some(entry) => SizeOf::AskScales { entry, outer: n, inner: k },
            None => SizeOf::Bytes(0),
        }
    }

    /// Scratch for the weight scales; zero where the query is missing, and zero
    /// means that the blockwise path is not available.
    pub fn sfb_bytes(&self, n: i32, k: i32) -> (r: SizeOf)
        ensures
            r == self.sfb_query(n, k),
    {
        match self.resolved_entries().sfb_bytes {
            Some(entry) => SizeOf::AskScales { entry, outer: n, inner: k },
            None => SizeOf::Bytes(0),
        }
    }

    /// Laying out the activation scales.
    pub open spec fn prep_sfa_call(
        self,
        a_scale: u64,
        sfa: u64,
        m: i32,
        k: i32,
        stream: u64,
    ) -> Result<PrepCall, RvllmError> {
        match self.resolved().prep_sfa {
            Some(entry) => Ok(
                PrepCall {
                    entry,
                    src: a_scale,
                    dst: sfa,
                    dim_outer: m,
                    dim_inner: k,
                    stream,
                    kernel: "prep_sfa_sm120",
                },
            ),
            None => Err(
                gemm_error(0, CudaErrorKind::Other, "prep_sfa_sm120 (missing from .so)", stream),
            ),
        }
    }

    /// Prepares the call that lays the per-token activation scales out. The
    /// kernel takes the maximum over each 128 rows.
    pub fn launch_prep_sfa(&self, a_scale: u64, sfa: u64, m: i32, k: i32, stream: u64) -> (r:
        Result<PrepCall, RvllmError>)
        ensures
            r == self.prep_sfa_call(a_scale, sfa, m, k, stream),
    {
        match self.resolved_entries().prep_sfa {
            Some(entry) => Ok(
                PrepCall {
                    entry,
                    src: a_scale,
                    dst: sfa,
                    dim_outer: m,
                    dim_inner: k,
                    stream,
                    kernel: "prep_sfa_sm120",
                },
            ),
            None => Err(missing_entry("prep_sfa_sm120 (missing from .so)", stream)),
        }
    }

    /// Laying out the weight scales.
    pub open spec fn prep_sfb_call(
        self,
        b_chscale: u64,
        sfb: u64,
        n: i32,
        k: i32,
        stream: u64,
    ) -> Result<PrepCall, RvllmError> {
        match self.resolved().prep_sfb {
            Some(entry) => Ok(
                PrepCall {
                    entry,
                    src: b_chscale,
                    dst: sfb,
                    dim_outer: n,
                    dim_inner: k,
                    stream,
                    kernel: "prep_sfb_sm120",
                },
            ),
            None => Err(
                gemm_error(0, CudaErrorKind::Other, "prep_sfb_sm120 (missing from .so)", stream),
            ),
        }
    }

    /// Prepares the call that transposes the row-major weight block scales.
    pub fn launch_prep_sfb(&self, b_chscale: u64, sfb: u64, n: i32, k: i32, stream: u64) -> (r:
        Result<PrepCall, RvllmError>)
        ensures
            r == self.prep_sfb_call(b_chscale, sfb, n, k, stream),
    {
        match self.resolved_entries().prep_sfb {
            Some(entry) => Ok(
                PrepCall {
                    entry,
                    src: b_chscale,
                    dst: sfb,
                    dim_outer: n,
                    dim_inner: k,
                    stream,
                    kernel: "prep_sfb_sm120",
                },
            ),
            None => Err(missing_entry("prep_sfb_sm120 (missing from .so)", stream)),
        }
    }

    /// The blockwise call with the library's entry point.
    pub open spec fn blockscale_call(self, call: GemmCall) -> Result<GemmCall, RvllmError> {
        match self.resolved().fp8_gemm_blockscale {
            Some(entry) => Ok(GemmCall { entry, ..call }),
            None => Err(
                gemm_error(
                    0,
                    CudaErrorKind::Other,
                    "fp8_gemm_blockscale_sm120 (missing from .so)",
                    call.stream,
                ),
            ),
        }
    }

    /// Prepares a matrix multiplication with 128 by 128 block scales.
    #[allow(clippy::too_many_arguments)]
    pub fn launch_fp8_gemm_blockscale(
        &self,
        output: u64,
        a: u64,
        b: u64,
        a_scale_sfa: u64,
        b_scale_sfb: u64,
        m: i32,
        n: i32,
        k: i32,
        workspace: u64,
        workspace_size: usize,
        stream: u64,
    ) -> (r: Result<GemmCall, RvllmError>)
        ensures
            r == self.blockscale_call(
                GemmCall {
                    entry: 0,
                    output,
                    a,
                    b,
                    a_scale: a_scale_sfa,
                    b_scale: b_scale_sfb,
                    residual: None,
                    m,
                    n,
                    k,
                    workspace,
                    workspace_size,
                    stream,
                    kernel: "fp8_gemm_blockscale_sm120",
                    variant: 0,
                },
            ),
    {
        let entry: u64 = match self.resolved_entries().fp8_gemm_blockscale {
            Some(entry) => entry,
            None => {
                return Err(missing_entry("fp8_gemm_blockscale_sm120 (missing from .so)", stream));
            },
        };
        Ok(
            GemmCall {
                entry,
                output,
                a,
                b,
                a_scale: a_scale_sfa,
                b_scale: b_scale_sfb,
                residual: None,
                m,
                n,
                k,
                workspace,
                workspace_size,
                stream,
                kernel: "fp8_gemm_blockscale_sm120",
                variant: 0,
            },
        )
    }
}

/// The CUTLASS backend of the live device.
#[derive(Debug)]
#[non_exhaustive]
pub enum CutlassBackend {
    /// SM80, SM89 and SM90.
    So(CutlassLib),
    /// SM121, where the sm_120 library is built.
    SoSm120(CutlassSm120Lib),
    /// No CUTLASS: callers use cuBLASLt.
    Absent,
}

/// Which library a backend is loaded from.
#[derive(Debug)]
pub enum CutlassSource {
    /// `libcutlass_kernels.so`, at the path of the kernel directory.
    So,
    /// `libcutlass_sm120.so`, at this path.
    SoSm120(String),
    /// None.
    Absent,
}

impl CutlassBackend {
    /// The library for a device: nothing in a host build; on SM121 the sm_120
    /// library where there is one and else nothing; else the kernel library.
    pub fn source_for(
        build: Build,
        target: Option<CompileTarget>,
        path: &str,
        env_override: &Option<SoCandidate>,
        sibling_is_file: bool,
    ) -> (r: CutlassSource)
        ensures
            if build is Host {
                r is Absent
            } else if target == Some(CompileTarget::Sm121) {
                match sm120_path(*env_override, path@, sibling_is_file) {
                    Some(p) => r matches CutlassSource::SoSm120(so) && so@ == p,
                    None => r is Absent,
                }
            } else {
                r is So
            },
    {
        if let Build::Host = build {
            return CutlassSource::Absent;
        }
        if let Some(CompileTarget::Sm121) = target {
            return match resolve_sm120_so_path(env_override, path, sibling_is_file) {
                Some(so) => CutlassSource::SoSm120(so),
                None => CutlassSource::Absent,
            };
        }
        CutlassSource::So
    }

    /// Constructs the backend of a device. `path` is that of the kernel library;
    /// on SM121 it counts only for the default place of the sm_120 library, and
    /// `policy_variants` not at all. `sibling_is_file` says whether there is a
    /// file at that place, and `so` is the library that `source_for` picked, as
    /// it was opened.
    pub fn load_for(
        build: Build,
        target: Option<CompileTarget>,
        path: String,
        env_override: &Option<SoCandidate>,
        sibling_is_file: bool,
        so: SoImage,
        policy_variants: &Vec<VariantId>,
    ) -> (r: Result<CutlassBackend, RvllmError>)
        ensures
            if build is Host {
                r == Ok::<CutlassBackend, RvllmError>(CutlassBackend::Absent)
            } else if target == Some(CompileTarget::Sm121) {
                match sm120_path(*env_override, path@, sibling_is_file) {
                    None => r == Ok::<CutlassBackend, RvllmError>(CutlassBackend::Absent),
                    Some(p) => match r {
                        Ok(b) => b is SoSm120 && CutlassSm120Lib::loads_as(
                            p,
                            so,
                            Ok(b->SoSm120_0),
                        ),
                        Err(e) => CutlassSm120Lib::loads_as(p, so, Err(e)),
                    },
                }
            } else {
                match so {
                    SoImage::Missing | SoImage::OpenFailed => r is Err && is_so_missing(
                        r->Err_0,
                        path@,
                    ),
                    SoImage::Unlinked => r is Ok && r->Ok_0 is So && r->Ok_0->So_0.so_path@ == path@
                        && r->Ok_0->So_0.entries is None,
                    SoImage::Open(table) => match first_missing(table@, policy_variants@) {
                        Some(vid) => r is Err && is_variant_missing(r->Err_0, path@, vid),
                        None => r is Ok && r->Ok_0 is So && r->Ok_0->So_0.so_path@ == path@
                            && r->Ok_0->So_0.entries is Some
                            && r->Ok_0->So_0.entries->0.resolved_from(table@, policy_variants@),
                    },
                }
            },
    {
        match CutlassBackend::source_for(
            build,
            target,
            path.as_str(),
            env_override,
            sibling_is_file,
        ) {
            CutlassSource::Absent => Ok(CutlassBackend::Absent),
            CutlassSource::SoSm120(sm120_path) => match CutlassSm120Lib::load(sm120_path, so) {
                Ok(lib) => Ok(CutlassBackend::SoSm120(lib)),
                Err(e) => Err(e),
            },
            CutlassSource::So => match CutlassLib::load(path, so, policy_variants) {
                Ok(lib) => Ok(CutlassBackend::So(lib)),
                Err(e) => Err(e),
            },
        }
    }

    /// The path that the library was loaded from; empty without a library.
    #[must_use]
    pub fn so_path(&self) -> (r: String)
        ensures
            r@ == match *self {
                CutlassBackend::So(lib) => lib.so_path@,
                CutlassBackend::SoSm120(lib) => lib.so_path@,
                CutlassBackend::Absent => Seq::<char>::empty(),
            },
    {
        match self {
            CutlassBackend::So(lib) => lib.so_path.clone(),
            CutlassBackend::SoSm120(lib) => lib.so_path.clone(),
            CutlassBackend::Absent => empty_text(),
        }
    }

    /// Prepares a matrix multiplication without a residual.
    #[allow(clippy::too_many_arguments)]
    pub fn launch_fp8_gemm(
        &self,
        plan: &Fp8GemmPlan,
        output: u64,
        a: u64,
        b: u64,
        a_scales: u64,
        b_scale: u64,
        workspace: u64,
        workspace_size: usize,
        stream: u64,
    ) -> (r: Result<GemmCall, RvllmError>)
        ensures
            match *self {
                CutlassBackend::So(lib) => lib.prepares(
                    *plan,
                    false,
                    (GemmCall {
                        entry: 0,
                        output,
                        a,
                        b,
                        a_scale: a_scales,
                        b_scale,
                        residual: None,
                        m: plan.m as i32,
                        n: plan.n as i32,
                        k: plan.k as i32,
                        workspace,
                        workspace_size,
                        stream,
                        kernel: "fp8_gemm",
                        variant: plan.variant.0,
                    }),
                    r,
                ),
                CutlassBackend::Absent => r == Err::<GemmCall, RvllmError>(
                    gemm_not_available(
                        "fp8_gemm (CutlassBackend::Absent — sm_121 has no CUTLASS .so)",
                        "fp8_gemm",
                        stream,
                    ),
                ),
                CutlassBackend::SoSm120(_) => r == Err::<GemmCall, RvllmError>(
                    gemm_not_available(
                        "fp8_gemm (non-channelscale) — SoSm120 only ships the blockwise entry",
                        "fp8_gemm",
                        stream,
                    ),
                ),
            },
    {
        match self {
            CutlassBackend::So(lib) => lib.launch_fp8_gemm(
                plan,
                output,
                a,
                b,
                a_scales,
                b_scale,
                workspace,
                workspace_size,
                stream,
            ),
            CutlassBackend::Absent => Err(
                not_available(
                    "fp8_gemm (CutlassBackend::Absent — sm_121 has no CUTLASS .so)",
                    "fp8_gemm",
                    stream,
                ),
            ),
            CutlassBackend::SoSm120(_) => Err(
                not_available(
                    "fp8_gemm (non-channelscale) — SoSm120 only ships the blockwise entry",
                    "fp8_gemm",
                    stream,
                ),
            ),
        }
    }

    /// Prepares a matrix multiplication whose epilogue adds `residual`.
    #[allow(clippy::too_many_arguments)]
    pub fn launch_fp8_gemm_residual(
        &self,
        plan: &Fp8GemmPlan,
        output: u64,
        a: u64,
        b: u64,
        a_scales: u64,
        b_scale: u64,
        residual: u64,
        workspace: u64,
        workspace_size: usize,
        stream: u64,
    ) -> (r: Result<GemmCall, RvllmError>)
        ensures
            match *self {
                CutlassBackend::So(lib) => lib.prepares(
                    *plan,
                    true,
                    (GemmCall {
                        entry: 0,
                        output,
                        a,
                        b,
                        a_scale: a_scales,
                        b_scale,
                        residual: Some(residual),
                        m: plan.m as i32,
                        n: plan.n as i32,
                        k: plan.k as i32,
                        workspace,
                        workspace_size,
                        stream,
                        kernel: "fp8_gemm_residual",
                        variant: plan.variant.0,
                    }),
                    r,
                ),
                CutlassBackend::Absent => r == Err::<GemmCall, RvllmError>(
                    gemm_not_available(
                        "fp8_gemm_residual (CutlassBackend::Absent — sm_121 has no CUTLASS .so)",
                        "fp8_gemm_residual",
                        stream,
                    ),
                ),
                CutlassBackend::SoSm120(_) => r == Err::<GemmCall, RvllmError>(
                    gemm_not_available(
                        "fp8_gemm_residual — SoSm120 has no residual-fused entry yet",
                        "fp8_gemm_residual",
                        stream,
                    ),
                ),
            },
    {
        match self {
            CutlassBackend::So(lib) => lib.launch_fp8_gemm_residual(
                plan,
                output,
                a,
                b,
                a_scales,
                b_scale,
                residual,
                workspace,
                workspace_size,
                stream,
            ),
            CutlassBackend::Absent => Err(
                not_available(
                    "fp8_gemm_residual (CutlassBackend::Absent — sm_121 has no CUTLASS .so)",
                    "fp8_gemm_residual",
                    stream,
                ),
            ),
            CutlassBackend::SoSm120(_) => Err(
                not_available(
                    "fp8_gemm_residual — SoSm120 has no residual-fused entry yet",
                    "fp8_gemm_residual",
                    stream,
                ),
            ),
        }
    }

    /// The row- and column-scaled call; only the kernel library has it.
    pub open spec fn channelscale_call(self, call: GemmCall) -> Result<GemmCall, RvllmError> {
        match self {
            CutlassBackend::So(lib) => lib.channelscale_call(call),
            CutlassBackend::Absent => Err(
                gemm_not_available(
                    "fp8_gemm_channelscale (CutlassBackend::Absent — sm_121 has no CUTLASS .so)",
                    "fp8_gemm_channelscale",
                    call.stream,
                ),
            ),
            CutlassBackend::SoSm120(_) => Err(
                gemm_not_available(
                    "fp8_gemm_channelscale — SoSm120 uses the blockscale ABI; call launch_fp8_gemm_blockscale_sm120 instead",
                    "fp8_gemm_channelscale",
                    call.stream,
                ),
            ),
        }
    }

    /// Prepares a matrix multiplication scaled by row and by column.
    #[allow(clippy::too_many_arguments)]
    pub fn launch_fp8_gemm_channelscale(
        &self,
        output: u64,
        a: u64,
        b: u64,
        row_scale: u64,
        col_scale: u64,
        m: i32,
        n: i32,
        k: i32,
        workspace: u64,
        workspace_size: usize,
        stream: u64,
    ) -> (r: Result<GemmCall, RvllmError>)
        ensures
            r == self.channelscale_call(
                GemmCall {
                    entry: 0,
                    output,
                    a,
                    b,
                    a_scale: row_scale,
                    b_scale: col_scale,
                    residual: None,
                    m,
                    n,
                    k,
                    workspace,
                    workspace_size,
                    stream,
                    kernel: "fp8_gemm_channelscale",
                    variant: 0,
                },
            ),
    {
        match self {
            CutlassBackend::So(lib) => lib.launch_fp8_gemm_channelscale(
                output,
                a,
                b,
                row_scale,
                col_scale,
                m,
                n,
                k,
                workspace,
                workspace_size,
                stream,
            ),
            CutlassBackend::Absent => Err(
                not_available(
                    "fp8_gemm_channelscale (CutlassBackend::Absent — sm_121 has no CUTLASS .so)",
                    "fp8_gemm_channelscale",
                    stream,
                ),
            ),
            CutlassBackend::SoSm120(_) => Err(
                not_available(
                    "fp8_gemm_channelscale — SoSm120 uses the blockscale ABI; call launch_fp8_gemm_blockscale_sm120 instead",
                    "fp8_gemm_channelscale",
                    stream,
                ),
            ),
        }
    }

    /// The blockwise call; only the sm_120 library has it.
    pub open spec fn blockscale_call(self, call: GemmCall) -> Result<GemmCall, RvllmError> {
        match self {
            CutlassBackend::SoSm120(lib) => lib.blockscale_call(call),
            CutlassBackend::So(_) => Err(
                gemm_not_available(
                    "fp8_gemm_blockscale_sm120 — SM90 .so has no Blackwell blockwise kernel",
                    "fp8_gemm_blockscale_sm120",
                    call.stream,
                ),
            ),
            CutlassBackend::Absent => Err(
                gemm_not_available(
                    "fp8_gemm_blockscale_sm120 (CutlassBackend::Absent — libcutlass_sm120.so not built)",
                    "fp8_gemm_blockscale_sm120",
                    call.stream,
                ),
            ),
        }
    }

    /// Prepares a matrix multiplication with 128 by 128 block scales.
    #[allow(clippy::too_many_arguments)]
    pub fn launch_fp8_gemm_blockscale_sm120(
        &self,
        output: u64,
        a: u64,
        b: u64,
        a_scale_sfa: u64,
        b_scale_sfb: u64,
        m: i32,
        n: i32,
        k: i32,
        workspace: u64,
        workspace_size: usize,
        stream: u64,
    ) -> (r: Result<GemmCall, RvllmError>)
        ensures
            r == self.blockscale_call(
                GemmCall {
                    entry: 0,
                    output,
                    a,
                    b,
                    a_scale: a_scale_sfa,
                    b_scale: b_scale_sfb,
                    residual: None,
                    m,
                    n,
                    k,
                    workspace,
                    workspace_size,
                    stream,
                    kernel: "fp8_gemm_blockscale_sm120",
                    variant: 0,
                },
            ),
    {
        match self {
            CutlassBackend::SoSm120(lib) => lib.launch_fp8_gemm_blockscale(
                output,
                a,
                b,
                a_scale_sfa,
                b_scale_sfb,
                m,
                n,
                k,
                workspace,
                workspace_size,
                stream,
            ),
            CutlassBackend::So(_) => Err(
                not_available(
                    "fp8_gemm_blockscale_sm120 — SM90 .so has no Blackwell blockwise kernel",
                    "fp8_gemm_blockscale_sm120",
                    stream,
                ),
            ),
            CutlassBackend::Absent => Err(
                not_available(
                    "fp8_gemm_blockscale_sm120 (CutlassBackend::Absent — libcutlass_sm120.so not built)",
                    "fp8_gemm_blockscale_sm120",
                    stream,
                ),
            ),
        }
    }

    /// The workspace of the blockwise kernel; zero for backends without it.
    #[must_use]
    pub fn fp8_gemm_blockscale_sm120_workspace(&self, m: i32, n: i32, k: i32) -> (r: SizeOf)
        ensures
            r == match *self {
                CutlassBackend::SoSm120(lib) => lib.workspace(m, n, k),
                _ => SizeOf::Bytes(0),
            },
    {
        match self {
            CutlassBackend::SoSm120(lib) => lib.workspace_size(m, n, k),
            _ => SizeOf::Bytes(0),
        }
    }
}

impl vstd::std_specs::convert::FromSpecImpl<CutlassLib> for CutlassBackend {
    open spec fn obeys_from_spec() -> bool {
        true
    }

    open spec fn from_spec(lib: CutlassLib) -> CutlassBackend {
        CutlassBackend::So(lib)
    }
}

impl From<CutlassLib> for CutlassBackend {
    fn from(lib: CutlassLib) -> (r: CutlassBackend) {
        CutlassBackend::So(lib)
    }
}

} // verus!
