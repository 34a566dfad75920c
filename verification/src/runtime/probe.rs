//! What the bring-up probe decides: the files that it takes from its
//! environment, the state that a loaded model has to be in, and the prompt of
//! its throughput run.

use crate::arch::CompileTarget;
use crate::text::{decimal, decimal_of, has_prefix, number_value, parse_number};
use vstd::prelude::*;

verus! {

/// Stands for a library that the operator did not name. On sm_121 neither the
/// CUTLASS nor the attention library is opened.
pub const UNUSED_PATH_MARKER: &'static str = "<unused-on-sm121>";

/// A policy without entries, for a device that has no CUTLASS kernels to look
/// up.
pub const MINIMAL_POLICY_JSON: &'static str =
    "{\"revision\":\"probe-sm121\",\"arch\":\"sm_121\",\"variants\":[],\"entries\":{}}";

/// Where that policy is written, in the kernels directory.
pub const MINIMAL_POLICY_FILE: &'static str = ".probe-minimal-policy.json";

pub const DEFAULT_ARENA_GB: u64 = 4;

pub const DEFAULT_PROMPT_LEN: usize = 8;

pub const DEFAULT_MAX_NEW: usize = 32;

pub const BOS_ID: u32 = 2;

/// Tokens that end a generation.
pub const EOS_IDS: [u32; 2] = [1, 107];

/// The smallest id of a synthetic prompt behind its first.
pub const FIRST_PROMPT_ID: u32 = 107;

/// How many ids a synthetic prompt draws from.
pub const PROMPT_ID_SPREAD: u32 = 100_000;

/// Where the kernel policy comes from.
#[derive(Debug)]
pub enum PolicySource {
    /// The operator's file.
    Given { path: String },
    /// `MINIMAL_POLICY_FILE` in this directory, written where it is not there.
    Minimal { dir: String },
}

/// The environment variables that name files.
#[derive(Debug)]
pub struct PathVars {
    pub model_dir: Option<String>,
    pub kernels_dir: Option<String>,
    pub cutlass_so: Option<String>,
    pub fa3_so: Option<String>,
    pub policy: Option<String>,
}

/// The files of a bring-up.
#[derive(Debug)]
pub struct ProbePaths {
    pub model_dir: String,
    pub kernels_dir: String,
    pub cutlass_so: String,
    pub fa3_so: String,
    pub policy: PolicySource,
}

/// Why the probe gives up.
#[derive(Debug, PartialEq, Eq)]
pub enum ProbeError {
    MissingVar { name: &'static str },
    WrongArchitecture { model_dir: String, architecture: String },
    ArenaCapacity { got: usize, requested: usize },
    UnsupportedCapability { major: i32, minor: i32 },
    GemvModuleMissing,
    NativeGemvNull,
    NativeGemvUnexpected { target: CompileTarget },
    NativeGemvMissing { target: CompileTarget },
}

/// The variant name of a target.
pub open spec fn target_text(t: CompileTarget) -> Seq<char> {
    match t {
        CompileTarget::Sm80 => "Sm80"@,
        CompileTarget::Sm89 => "Sm89"@,
        CompileTarget::Sm90 => "Sm90"@,
        CompileTarget::Sm121 => "Sm121"@,
    }
}

fn target_name(t: CompileTarget) -> (r: &'static str)
    ensures
        r@ == target_text(t),
{
    match t {
        CompileTarget::Sm80 => "Sm80",
        CompileTarget::Sm89 => "Sm89",
        CompileTarget::Sm90 => "Sm90",
        CompileTarget::Sm121 => "Sm121",
    }
}

/// The decimal numeral of an integer, with a minus sign where it is negative.
pub open spec fn signed_decimal(n: int) -> Seq<char> {
    if n < 0 {
        "-"@ + decimal((-n) as nat)
    } else {
        decimal(n as nat)
    }
}

fn signed_decimal_of(n: i32) -> (r: String)
    ensures
        r@ == signed_decimal(n as int),
{
    let wide: i64 = n as i64;
    if wide < 0 {
        "-".to_owned().concat(decimal_of((-wide) as u64).as_str())
    } else {
        decimal_of(wide as u64)
    }
}

impl ProbeError {
    /// What `message` prints.
    pub open spec fn text(self) -> Seq<char> {
        match self {
            ProbeError::MissingVar { name } => "missing env var: "@ + name@,
            ProbeError::WrongArchitecture { model_dir, architecture } =>
                "expected Gemma4 architecture in "@ + model_dir@ + ", got "@ + architecture@,
            ProbeError::ArenaCapacity { got, requested } => "arena capacity "@ + decimal(got as nat)
                + " != requested "@ + decimal(requested as nat),
            ProbeError::UnsupportedCapability { major, minor } => "unsupported compute cap "@
                + signed_decimal(major as int) + "."@ + signed_decimal(minor as int)
                + " (should have failed earlier)"@,
            ProbeError::GemvModuleMissing => "fp8_gemv_mod.raw() == 0 (module not loaded)"@,
            ProbeError::NativeGemvNull => "fn_fp8_gemv_wpr_native_f16in is Some but raw() == 0"@,
            ProbeError::NativeGemvUnexpected { target } =>
                "fn_fp8_gemv_wpr_native_f16in unexpectedly Some on non-Blackwell target Some("@
                + target_text(target) + ")"@,
            ProbeError::NativeGemvMissing { target } =>
                "fn_fp8_gemv_wpr_native_f16in unexpectedly None on target Some("@ + target_text(
                target,
            ) + ") — available_for says it should be resolved"@,
        }
    }

    /// The error in words.
    pub fn message(&self) -> (r: String)
        ensures
            r@ == self.text(),
    {
        match self {
            ProbeError::MissingVar { name } => "missing env var: ".to_owned().concat(name),
            ProbeError::WrongArchitecture { model_dir, architecture } => {
                let mut s = "expected Gemma4 architecture in ".to_owned();
                s.append(model_dir.as_str());
                s.append(", got ");
                s.append(architecture.as_str());
                s
            },
            ProbeError::ArenaCapacity { got, requested } => {
                let mut s = "arena capacity ".to_owned();
                s.append(decimal_of(*got as u64).as_str());
                s.append(" != requested ");
                s.append(decimal_of(*requested as u64).as_str());
                s
            },
            ProbeError::UnsupportedCapability { major, minor } => {
                let mut s = "unsupported compute cap ".to_owned();
                s.append(signed_decimal_of(*major).as_str());
                s.append(".");
                s.append(signed_decimal_of(*minor).as_str());
                s.append(" (should have failed earlier)");
                s
            },
            ProbeError::GemvModuleMissing => {
                "fp8_gemv_mod.raw() == 0 (module not loaded)".to_owned()
            },
            ProbeError::NativeGemvNull => {
                "fn_fp8_gemv_wpr_native_f16in is Some but raw() == 0".to_owned()
            },
            ProbeError::NativeGemvUnexpected { target } => {
                let mut s =
                    "fn_fp8_gemv_wpr_native_f16in unexpectedly Some on non-Blackwell target Some(".to_owned();
                s.append(target_name(*target));
                s.append(")");
                s
            },
            ProbeError::NativeGemvMissing { target } => {
                let mut s =
                    "fn_fp8_gemv_wpr_native_f16in unexpectedly None on target Some(".to_owned();
                s.append(target_name(*target));
                s.append(") — available_for says it should be resolved");
                s
            },
        }
    }
}

/// Whether a model of this architecture is a Gemma 4.
pub open spec fn is_gemma4(architecture: Seq<char>) -> bool {
    "Gemma4"@.is_prefix_of(architecture)
}

/// Refuses a model that is no Gemma 4: nothing that follows is meant for it.
pub fn check_architecture(architecture: &str, model_dir: &str) -> (r: Result<(), ProbeError>)
    ensures
        match r {
            Ok(()) => is_gemma4(architecture@),
            Err(e) => !is_gemma4(architecture@) && (e matches ProbeError::WrongArchitecture {
                model_dir: dir,
                architecture: got,
            } && dir@ == model_dir@ && got@ == architecture@),
        },
{
    if has_prefix(architecture, "Gemma4") {
        return Ok(());
    }
    Err(
        ProbeError::WrongArchitecture {
            model_dir: model_dir.to_owned(),
            architecture: architecture.to_owned(),
        },
    )
}

/// A path that may be left out.
pub open spec fn path_or_marker(given: Option<String>) -> Seq<char> {
    match given {
        Some(p) => p@,
        None => UNUSED_PATH_MARKER@,
    }
}

fn or_marker(given: Option<String>) -> (r: String)
    ensures
        r@ == path_or_marker(given),
{
    match given {
        Some(p) => p,
        None => UNUSED_PATH_MARKER.to_owned(),
    }
}

/// Whether the policy is the operator's, or else the minimal one next to the
/// kernels.
pub open spec fn policy_from(policy: PolicySource, given: Option<String>, kernels_dir: Seq<char>)
    -> bool {
    match (policy, given) {
        (PolicySource::Given { path }, Some(p)) => path@ == p@,
        (PolicySource::Minimal { dir }, None) => dir@ == kernels_dir,
        _ => false,
    }
}

/// The files of a bring-up. The model and the kernels have to be named; the
/// libraries and the policy need not be.
pub fn resolve_paths(vars: PathVars) -> (r: Result<ProbePaths, ProbeError>)
    ensures
        match (vars.model_dir, vars.kernels_dir) {
            (None, _) => r == Err::<ProbePaths, ProbeError>(
                ProbeError::MissingVar { name: "RVLLM_MODEL_DIR" },
            ),
            (Some(_), None) => r == Err::<ProbePaths, ProbeError>(
                ProbeError::MissingVar { name: "RVLLM_KERNELS_DIR" },
            ),
            (Some(m), Some(k)) => {
                &&& r is Ok
                &&& r->Ok_0.model_dir@ == m@
                &&& r->Ok_0.kernels_dir@ == k@
                &&& r->Ok_0.cutlass_so@ == path_or_marker(vars.cutlass_so)
                &&& r->Ok_0.fa3_so@ == path_or_marker(vars.fa3_so)
                &&& policy_from(r->Ok_0.policy, vars.policy, k@)
            },
        },
{
    let model_dir = match vars.model_dir {
        Some(p) => p,
        None => return Err(ProbeError::MissingVar { name: "RVLLM_MODEL_DIR" }),
    };
    let kernels_dir = match vars.kernels_dir {
        Some(p) => p,
        None => return Err(ProbeError::MissingVar { name: "RVLLM_KERNELS_DIR" }),
    };
    let policy = match vars.policy {
        Some(path) => PolicySource::Given { path },
        None => PolicySource::Minimal { dir: kernels_dir.as_str().to_owned() },
    };
    Ok(
        ProbePaths {
            model_dir,
            kernels_dir,
            cutlass_so: or_marker(vars.cutlass_so),
            fa3_so: or_marker(vars.fa3_so),
            policy,
        },
    )
}

/// The size of the arena in gigabytes. `None` where the variable is set and is
/// no number.
pub fn arena_gb(given: Option<&str>) -> (r: Option<u64>)
    ensures
        match given {
            Some(s) => match number_value(s@, u64::MAX as nat) {
                Some(n) => r is Some && r->0 == n,
                None => r is None,
            },
            None => r == Some(DEFAULT_ARENA_GB),
        },
{
    match given {
        Some(s) => parse_number(s),
        None => Some(DEFAULT_ARENA_GB),
    }
}

/// The size of the arena in bytes.
pub fn arena_bytes(gb: u64) -> (r: usize)
    requires
        gb * 0x4000_0000 <= usize::MAX,
    ensures
        r == gb * 0x4000_0000,
{
    gb as usize * 0x4000_0000
}

/// A count that may be given; one that is not a number counts as not given.
pub fn count_or(given: Option<&str>, default: usize) -> (r: usize)
    ensures
        match given {
            Some(s) => match number_value(s@, usize::MAX as nat) {
                Some(n) => r == n,
                None => r == default,
            },
            None => r == default,
        },
{
    match given {
        Some(s) => match parse_number(s) {
            Some(n) => if n <= usize::MAX as u64 {
                n as usize
            } else {
                default
            },
            None => default,
        },
        None => default,
    }
}

/// What the probe sees of a loaded model: handles are zero where nothing is
/// behind them.
#[derive(Copy, Clone, Debug)]
pub struct BringUpFacts {
    pub major: i32,
    pub minor: i32,
    pub capacity: usize,
    pub requested: usize,
    pub gemv_module: u64,
    pub native_gemv: Option<u64>,
}

/// A bring-up that holds together.
#[derive(Copy, Clone, Debug, PartialEq, Eq)]
pub struct BringUpReport {
    pub target: CompileTarget,
    /// The arena lies in managed memory.
    pub unified: bool,
    /// The matrix-vector kernel with native conversion is there.
    pub native_gemv: bool,
}

/// Whether the matrix-vector kernel that converts FP8 natively exists for a
/// target: on Blackwell alone.
pub open spec fn native_gemv_available(t: CompileTarget) -> bool {
    t is Sm121
}

/// Whether a loaded model is as it has to be on the device that it runs on.
pub open spec fn bring_up_verdict(f: BringUpFacts) -> Result<BringUpReport, ProbeError> {
    if f.capacity != f.requested {
        Err(ProbeError::ArenaCapacity { got: f.capacity, requested: f.requested })
    } else {
        match CompileTarget::of_capability(f.major, f.minor) {
            None => Err(ProbeError::UnsupportedCapability { major: f.major, minor: f.minor }),
            Some(t) => if f.gemv_module == 0 {
                Err(ProbeError::GemvModuleMissing)
            } else {
                match f.native_gemv {
                    Some(raw) => if !native_gemv_available(t) {
                        Err(ProbeError::NativeGemvUnexpected { target: t })
                    } else if raw == 0 {
                        Err(ProbeError::NativeGemvNull)
                    } else {
                        Ok(BringUpReport { target: t, unified: t is Sm121, native_gemv: true })
                    },
                    None => if native_gemv_available(t) {
                        Err(ProbeError::NativeGemvMissing { target: t })
                    } else {
                        Ok(BringUpReport { target: t, unified: t is Sm121, native_gemv: false })
                    },
                }
            },
        }
    }
}

/// Checks a loaded model: the arena has the size that was asked for, the device
/// is one that kernels are built for, and exactly the kernels that exist for it
/// were found.
pub fn check_bring_up(f: BringUpFacts) -> (r: Result<BringUpReport, ProbeError>)
    ensures
        r == bring_up_verdict(f),
{
    if f.capacity != f.requested {
        return Err(ProbeError::ArenaCapacity { got: f.capacity, requested: f.requested });
    }
    let target = match CompileTarget::from_compute_capability(f.major, f.minor) {
        Some(t) => t,
        None => {
            return Err(ProbeError::UnsupportedCapability { major: f.major, minor: f.minor });
        },
    };
    if f.gemv_module == 0 {
        return Err(ProbeError::GemvModuleMissing);
    }
    let blackwell = matches!(target, CompileTarget::Sm121);
    match (f.native_gemv, blackwell) {
        (Some(raw), true) => {
            if raw == 0 {
                return Err(ProbeError::NativeGemvNull);
            }
        },
        (None, false) => {},
        (Some(_), false) => return Err(ProbeError::NativeGemvUnexpected { target }),
        (None, true) => return Err(ProbeError::NativeGemvMissing { target }),
    }
    Ok(BringUpReport { target, unified: blackwell, native_gemv: f.native_gemv.is_some() })
}

/// A model that passes runs on a device that kernels are built for, and it has
/// the native kernel and a unified arena on Blackwell and nowhere else.
pub proof fn report_names_the_device(f: BringUpFacts)
    requires
        bring_up_verdict(f) is Ok,
    ensures
        ({
            let report = bring_up_verdict(f)->Ok_0;
            &&& report.target.capability() == (f.major, f.minor)
            &&& report.unified == ((f.major, f.minor) == (12i32, 1i32))
            &&& report.native_gemv == report.unified
        }),
{
}

/// Token `i` of a synthetic prompt.
pub open spec fn prompt_id(i: int) -> int {
    if i == 0 {
        BOS_ID as int
    } else {
        FIRST_PROMPT_ID + (i * 37) % PROMPT_ID_SPREAD as int
    }
}

/// A prompt for measuring throughput: a first token, and behind it ids that are
/// spread over the vocabulary. It always has its first token.
pub fn synthetic_prompt(len: usize) -> (r: Vec<u32>)
    requires
        len <= 1 + u32::MAX / 37,
    ensures
        r@.len() == if len == 0 {
            1
        } else {
            len as int
        },
        forall|i: int| 0 <= i < r@.len() ==> #[trigger] r@[i] == prompt_id(i),
{
    let mut ids: Vec<u32> = Vec::new();
    ids.push(BOS_ID);
    let mut i: usize = 1;
    while i < len
        invariant
            len <= 1 + u32::MAX / 37,
            1 <= i,
            i <= len || i == 1,
            ids@.len() == i,
            forall|j: int| 0 <= j < i ==> #[trigger] ids@[j] == prompt_id(j),
        decreases len - i,
    {
        ids.push(FIRST_PROMPT_ID + (i as u32 * 37) % PROMPT_ID_SPREAD);
        i = i + 1;
    }
    ids
}

/// Every id behind the first of a synthetic prompt is one that the prompt draws
/// from and does not start a text; among the first hundred thousand tokens none
/// behind the first ends a generation either.
pub proof fn prompt_ids_are_ordinary(i: int)
    requires
        i > 0,
    ensures
        FIRST_PROMPT_ID <= prompt_id(i) < FIRST_PROMPT_ID + PROMPT_ID_SPREAD,
        prompt_id(i) != BOS_ID,
        i < PROMPT_ID_SPREAD ==> !EOS_IDS@.contains(prompt_id(i) as u32),
{
    if i < PROMPT_ID_SPREAD {
        assert((i * 37) % 100_000 != 0);
        assert(EOS_IDS@ =~= seq![1u32, 107]);
    }
}

/// How many tokens a generation added to its prompt.
pub fn new_tokens(output: usize, prompt: usize) -> (r: usize)
    ensures
        r == if output >= prompt {
            output - prompt
        } else {
            0
        },
{
    output.saturating_sub(prompt)
}

} // verus!
