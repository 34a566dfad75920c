//! GPU compile targets.
//!
//! Every kernel artifact is pinned to exactly one compute capability. The
//! runtime maps the device's capability to a `CompileTarget` and picks the
//! kernel directory of that name; a capability that is not listed is refused.

use crate::text::{decimal, digit_char};
use vstd::prelude::*;

verus! {

/// Whether the CUDA driver and the shared libraries are linked in.
#[derive(Copy, Clone, Debug, PartialEq, Eq, Structural)]
pub enum Build {
    Cuda,
    Host,
}

/// Supported GPU compile targets.
#[derive(Copy, Clone, Debug, PartialEq, Eq, PartialOrd, Ord, Hash, Structural)]
#[non_exhaustive]
#[must_use]
pub enum CompileTarget {
    /// Ampere A100/A800.
    Sm80,
    /// Ada, RTX 4090, L40S.
    Sm89,
    /// Hopper H100/H200.
    Sm90,
    /// Blackwell GB10 (DGX Spark). Distinct from sm_120 and sm_122.
    Sm121,
}

impl CompileTarget {
    /// The compute capability that this target is built for.
    pub open spec fn capability(self) -> (i32, i32) {
        match self {
            CompileTarget::Sm80 => (8, 0),
            CompileTarget::Sm89 => (8, 9),
            CompileTarget::Sm90 => (9, 0),
            CompileTarget::Sm121 => (12, 1),
        }
    }

    /// The target that is built for a compute capability, if there is one.
    pub open spec fn of_capability(major: i32, minor: i32) -> Option<CompileTarget> {
        if major == 8 && minor == 0 {
            Some(CompileTarget::Sm80)
        } else if major == 8 && minor == 9 {
            Some(CompileTarget::Sm89)
        } else if major == 9 && minor == 0 {
            Some(CompileTarget::Sm90)
        } else if major == 12 && minor == 1 {
            Some(CompileTarget::Sm121)
        } else {
            None
        }
    }

    /// The name of the target on `nvcc`'s command line.
    pub open spec fn sm_name(self) -> Seq<char> {
        match self {
            CompileTarget::Sm80 => "sm_80"@,
            CompileTarget::Sm89 => "sm_89"@,
            CompileTarget::Sm90 => "sm_90"@,
            CompileTarget::Sm121 => "sm_121"@,
        }
    }

    /// Maps a compute capability to its target. `None` for a capability that no
    /// kernels are built for; the caller turns that into a refusal to boot.
    #[must_use]
    pub fn from_compute_capability(major: i32, minor: i32) -> (r: Option<Self>)
        ensures
            r == Self::of_capability(major, minor),
    {
        match (major, minor) {
            (8, 0) => Some(CompileTarget::Sm80),
            (8, 9) => Some(CompileTarget::Sm89),
            (9, 0) => Some(CompileTarget::Sm90),
            (12, 1) => Some(CompileTarget::Sm121),
            _ => None,
        }
    }

    /// The `sm_XYZ` string accepted by `nvcc -arch=`, also the name of the
    /// kernel directory.
    #[must_use]
    pub fn as_sm_str(self) -> (r: &'static str)
        ensures
            r@ == self.sm_name(),
    {
        match self {
            CompileTarget::Sm80 => "sm_80",
            CompileTarget::Sm89 => "sm_89",
            CompileTarget::Sm90 => "sm_90",
            CompileTarget::Sm121 => "sm_121",
        }
    }
}

/// A target is found by its own capability and by no other, and a capability
/// that finds none belongs to none.
pub proof fn targets_are_found_by_capability(major: i32, minor: i32, t: CompileTarget)
    ensures
        CompileTarget::of_capability(major, minor) == Some(t) <==> t.capability() == (major, minor),
{
}

/// No two targets share a compute capability, so a device has at most one
/// kernel directory.
pub proof fn capability_is_injective(a: CompileTarget, b: CompileTarget)
    requires
        a.capability() == b.capability(),
    ensures
        a == b,
{
}

/// No two targets share a directory name, so kernels built for one are never
/// picked up for another.
pub proof fn sm_name_is_injective(a: CompileTarget, b: CompileTarget)
    requires
        a.sm_name() == b.sm_name(),
    ensures
        a == b,
{
    reveal_strlit("sm_80");
    reveal_strlit("sm_89");
    reveal_strlit("sm_90");
    reveal_strlit("sm_121");
    assert("sm_80"@[3] == '8' && "sm_80"@[4] == '0');
    assert("sm_89"@[3] == '8' && "sm_89"@[4] == '9');
    assert("sm_90"@[3] == '9' && "sm_90"@[4] == '0');
    assert("sm_121"@[3] == '1' && "sm_121"@[4] == '2');
}

/// A target is named by the two numbers of the capability that it is found by,
/// one behind the other.
pub proof fn targets_are_named_by_their_capability(
    major: i32,
    minor: i32,
    t: CompileTarget,
    name: &'static str,
)
    requires
        call_ensures(CompileTarget::from_compute_capability, (major, minor), Some(t)),
        call_ensures(CompileTarget::as_sm_str, (t,), name),
    ensures
        major >= 0,
        minor >= 0,
        name@ == "sm_"@ + decimal(major as nat) + decimal(minor as nat),
{
    reveal_strlit("sm_");
    reveal_strlit("sm_80");
    reveal_strlit("sm_89");
    reveal_strlit("sm_90");
    reveal_strlit("sm_121");
    assert(decimal(12).drop_last() =~= decimal(1));
    assert(decimal(12) =~= seq!['1', '2']);
    assert(decimal(major as nat) =~= if major == 12 {
        seq!['1', '2']
    } else {
        seq![digit_char(major as nat)]
    });
    assert(decimal(minor as nat) =~= seq![digit_char(minor as nat)]);
    assert(name@ =~= "sm_"@ + decimal(major as nat) + decimal(minor as nat));
}

/// A device of capability 8.0, 8.9, 9.0 or 12.1 has a target and no other device
/// has.
pub proof fn these_devices_have_targets(major: i32, minor: i32, r: Option<CompileTarget>)
    requires
        call_ensures(CompileTarget::from_compute_capability, (major, minor), r),
    ensures
        r is Some <==> (major == 8 && (minor == 0 || minor == 9)) || (major == 9 && minor == 0) || (
        major == 12 && minor == 1),
{
}

} // verus!
