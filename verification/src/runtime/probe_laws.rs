//! What the probe takes from its environment and when it passes a model.

use crate::runtime::probe::{
    arena_bytes, arena_gb, check_architecture, check_bring_up, count_or, new_tokens,
    resolve_paths, synthetic_prompt, BringUpFacts, BringUpReport, PathVars, PolicySource,
    ProbeError, ProbePaths,
};
use crate::text::{decimal, decimal_round_trip};
use crate::text_laws::numerals_are_digits;
use vstd::prelude::*;

verus! {

/// A model passes exactly where its arena has the size that was asked for, its
/// device is one that kernels are built for, the matrix-vector module is loaded,
/// and the native kernel is there on Blackwell, with a handle, and nowhere else.
/// The report names the device's target, and says unified on Blackwell alone.
pub proof fn models_pass_where_all_is_there(
    f: BringUpFacts,
    r: Result<BringUpReport, ProbeError>,
)
    requires
        call_ensures(check_bring_up, (f,), r),
    ensures
        ({
            let blackwell = f.major == 12 && f.minor == 1;
            let older = (f.major == 8 && (f.minor == 0 || f.minor == 9)) || (f.major == 9
                && f.minor == 0);
            &&& r is Ok <==> f.capacity == f.requested && f.gemv_module != 0 && ((blackwell && (
            f.native_gemv matches Some(raw) && raw != 0)) || (older && f.native_gemv is None))
            &&& r matches Ok(report) ==> {
                &&& report.unified == blackwell
                &&& report.native_gemv == blackwell
                &&& report.target is Sm121 <==> blackwell
                &&& report.target is Sm80 <==> f.major == 8 && f.minor == 0
                &&& report.target is Sm89 <==> f.major == 8 && f.minor == 9
                &&& report.target is Sm90 <==> f.major == 9
            }
            &&& f.capacity != f.requested ==> (r matches Err(
                ProbeError::ArenaCapacity { got, requested },
            ) && got == f.capacity && requested == f.requested)
        }),
{
}

/// A model passes for Gemma 4 exactly where its architecture starts with that
/// name; the error names the model and its architecture.
pub proof fn architectures_start_with_their_family(
    architecture: &str,
    dir: &str,
    r: Result<(), ProbeError>,
)
    requires
        call_ensures(check_architecture, (architecture, dir), r),
    ensures
        r is Ok <==> architecture@.len() >= 6 && architecture@.take(6) == "Gemma4"@,
        r matches Err(e) ==> (e matches ProbeError::WrongArchitecture {
            model_dir,
            architecture: got,
        } && model_dir@ == dir@ && got@ == architecture@),
{
    reveal_strlit("Gemma4");
    let a = architecture@;
    assert("Gemma4"@.len() == 6);
    assert("Gemma4"@.is_prefix_of(a) <==> a.len() >= 6 && a.take(6) =~= "Gemma4"@);
}

/// The files of a bring-up are those that were named, each under its own name;
/// without the model or the kernels there are none.
pub proof fn paths_are_those_that_were_named(
    vars: PathVars,
    r: Result<ProbePaths, ProbeError>,
)
    requires
        call_ensures(resolve_paths, (vars,), r),
    ensures
        r is Ok <==> vars.model_dir is Some && vars.kernels_dir is Some,
        r matches Ok(p) ==> {
            &&& p.model_dir@ == vars.model_dir->0@
            &&& p.kernels_dir@ == vars.kernels_dir->0@
            &&& vars.cutlass_so matches Some(so) ==> p.cutlass_so@ == so@
            &&& vars.fa3_so matches Some(so) ==> p.fa3_so@ == so@
            &&& vars.cutlass_so is None ==> p.cutlass_so@ == "<unused-on-sm121>"@
            &&& vars.fa3_so is None ==> p.fa3_so@ == "<unused-on-sm121>"@
            &&& vars.policy matches Some(q) ==> (p.policy matches PolicySource::Given { path }
                && path@ == q@)
            &&& vars.policy is None ==> (p.policy matches PolicySource::Minimal { dir } && dir@
                == p.kernels_dir@)
        },
        vars.model_dir is None ==> (r matches Err(ProbeError::MissingVar { name }) && name
            == "RVLLM_MODEL_DIR"),
        vars.model_dir is Some && vars.kernels_dir is None ==> (r matches Err(
            ProbeError::MissingVar { name },
        ) && name == "RVLLM_KERNELS_DIR"),
{
}

/// Sizes and counts that are given as numerals are taken as they are given; left
/// out, they are four gigabytes and the default.
pub proof fn given_numbers_are_taken(
    s: &str,
    n: nat,
    default: usize,
    gb: Option<u64>,
    count: usize,
    gb_left_out: Option<u64>,
    count_left_out: usize,
)
    requires
        s@ == decimal(n),
        n <= u64::MAX,
        call_ensures(arena_gb, (Some(s),), gb),
        call_ensures(count_or, (Some(s), default), count),
        call_ensures(arena_gb, (None::<&str>,), gb_left_out),
        call_ensures(count_or, (None::<&str>, default), count_left_out),
    ensures
        gb matches Some(v) && v == n,
        n <= usize::MAX ==> count == n,
        n > usize::MAX ==> count == default,
        gb_left_out == Some(4u64),
        count_left_out == default,
{
    decimal_round_trip(n);
    numerals_are_digits(n);
    assert(decimal(n)[0] != '+');
}

/// A gigabyte is 1024 times 1024 times 1024 bytes.
pub proof fn gigabytes_are_binary(gb: u64, r: usize)
    requires
        gb * 0x4000_0000 <= usize::MAX,
        call_ensures(arena_bytes, (gb,), r),
    ensures
        r == gb * 1024 * 1024 * 1024,
{
}

/// A synthetic prompt has the length that was asked for, and at least one token;
/// it starts a text, and no other of its tokens does.
pub proof fn prompts_have_their_length(len: usize, r: Vec<u32>)
    requires
        call_ensures(synthetic_prompt, (len,), r),
        len <= 100_000,
    ensures
        len > 0 ==> r@.len() == len,
        len == 0 ==> r@.len() == 1,
        r@[0] == 2,
        forall|i: int| 0 < i < r@.len() ==> 107 < #[trigger] r@[i] < 100_107,
        forall|i: int| 0 < i < r@.len() - 1 ==> {
            let step = r@[i + 1] - #[trigger] r@[i];
            step == 37 || step == 37 - 100_000
        },
{
    assert forall|i: int| 0 < i < r@.len() implies 107 < #[trigger] r@[i] < 100_107 by {
        assert((i * 37) % 100_000 != 0);
    }
}

/// The new tokens are those behind the prompt.
pub proof fn new_tokens_stand_behind_the_prompt(output: usize, prompt: usize, r: usize)
    requires
        call_ensures(new_tokens, (output, prompt), r),
    ensures
        output >= prompt ==> prompt + r == output,
        output < prompt ==> r == 0,
{
}

/// A message says what was found and what was expected.
pub proof fn messages_say_what_was_found(e: ProbeError, m: String)
    requires
        call_ensures(ProbeError::message, (&e,), m),
    ensures
        match e {
            ProbeError::MissingVar { name } => name@.is_suffix_of(m@),
            ProbeError::WrongArchitecture { model_dir, architecture } => (model_dir@ + ", got "@
                + architecture@).is_suffix_of(m@),
            ProbeError::ArenaCapacity { got, requested } => (decimal(got as nat)
                + " != requested "@ + decimal(requested as nat)).is_suffix_of(m@),
            ProbeError::UnsupportedCapability { major, minor } => major >= 0 && minor >= 0 ==> (
            "unsupported compute cap "@ + decimal(major as nat) + "."@ + decimal(
                minor as nat,
            )).is_prefix_of(m@),
            _ => true,
        },
{
}

} // verus!
