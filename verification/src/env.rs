//! Which environment variables the engine knows.
//!
//! A variable that starts with `RVLLM_` and is not listed is refused at startup,
//! so that a mistyped name is noticed.

use crate::text::{has_prefix, same_text};
use vstd::prelude::*;

verus! {

/// The known variables, in alphabetical order.
pub const ENV_WHITELIST: [&'static str; 5] = [
    "RVLLM_AUTOTUNE_CACHE",
    "RVLLM_DEVICE",
    "RVLLM_KERNEL_DIR",
    "RVLLM_LOG",
    "RVLLM_NO_GRAPH",
];

/// Whether a variable is listed.
pub open spec fn listed(key: Seq<char>) -> bool {
    exists|i: int| 0 <= i < 5 && (#[trigger] ENV_WHITELIST@[i])@ == key
}

/// Whether a variable claims to be the engine's and is not listed.
pub open spec fn unknown(key: Seq<char>) -> bool {
    "RVLLM_"@.is_prefix_of(key) && !listed(key)
}

fn is_listed(key: &str) -> (r: bool)
    ensures
        r == listed(key@),
{
    let mut i: usize = 0;
    while i < 5
        invariant
            i <= 5,
            forall|j: int| 0 <= j < i ==> (#[trigger] ENV_WHITELIST@[j])@ != key@,
        decreases 5 - i,
    {
        if same_text(ENV_WHITELIST[i], key) {
            assert(ENV_WHITELIST@[i as int]@ == key@);
            return true;
        }
        i = i + 1;
    }
    false
}

/// Whether `r` is the first of the variables that claims to be the engine's and is
/// not listed.
pub open spec fn is_first_unknown(keys: Seq<String>, r: Option<String>) -> bool {
    match r {
        Some(k) => exists|i: int|
            0 <= i < keys.len() && (#[trigger] keys[i])@ == k@ && unknown(k@) && forall|j: int|
                0 <= j < i ==> !unknown((#[trigger] keys[j])@),
        None => forall|i: int| 0 <= i < keys.len() ==> !unknown((#[trigger] keys[i])@),
    }
}

/// The first of the variables that are set which claims to be the engine's and
/// is not listed.
pub fn first_unknown_rvllm_env(keys: &Vec<String>) -> (r: Option<String>)
    ensures
        is_first_unknown(keys@, r),
        match r {
            Some(k) => exists|i: int|
                0 <= i < keys@.len() && (#[trigger] keys@[i])@ == k@ && unknown(k@) && forall|
                    j: int,
                |
                    0 <= j < i ==> !unknown((#[trigger] keys@[j])@),
            None => forall|i: int| 0 <= i < keys@.len() ==> !unknown((#[trigger] keys@[i])@),
        },
{
    let mut i: usize = 0;
    while i < keys.len()
        invariant
            i <= keys@.len(),
            forall|j: int| 0 <= j < i ==> !unknown((#[trigger] keys@[j])@),
        decreases keys@.len() - i,
    {
        let key = keys[i].as_str();
        if has_prefix(key, "RVLLM_") && !is_listed(key) {
            let found = keys[i].clone();
            assert(keys@[i as int]@ == found@);
            return Some(found);
        }
        i = i + 1;
    }
    None
}

/// Whether a variable is one of those that the engine knows.
pub open spec fn known(key: Seq<char>) -> bool {
    ||| key == "RVLLM_AUTOTUNE_CACHE"@
    ||| key == "RVLLM_DEVICE"@
    ||| key == "RVLLM_KERNEL_DIR"@
    ||| key == "RVLLM_LOG"@
    ||| key == "RVLLM_NO_GRAPH"@
}

/// A variable is refused exactly where its name starts like the engine's and is
/// none of the five; of several that are refused, the first is named.
pub proof fn mistyped_names_are_refused(keys: Vec<String>, r: Option<String>, i: int)
    requires
        call_ensures(first_unknown_rvllm_env, (&keys,), r),
        0 <= i < keys@.len(),
        "RVLLM_"@.is_prefix_of(keys@[i]@),
        !known(keys@[i]@),
    ensures
        r is Some,
        "RVLLM_"@.is_prefix_of(r->0@),
        !known(r->0@),
        exists|k: int| 0 <= k <= i && (#[trigger] keys@[k])@ == r->0@,
{
    listed_are_known(keys@[i]@);
    assert(unknown(keys@[i]@));
    assert(is_first_unknown(keys@, r));
    listed_are_known(r->0@);
}

/// Names that are known and names that do not start like the engine's are never
/// refused.
pub proof fn other_names_are_not_refused(keys: Vec<String>, r: Option<String>)
    requires
        call_ensures(first_unknown_rvllm_env, (&keys,), r),
        forall|i: int|
            0 <= i < keys@.len() ==> known((#[trigger] keys@[i])@) || !"RVLLM_"@.is_prefix_of(
                keys@[i]@,
            ),
    ensures
        r is None,
{
    if r is Some {
        listed_are_known(r->0@);
        let k = choose|k: int| 0 <= k < keys@.len() && (#[trigger] keys@[k])@ == r->0@;
        assert(known(keys@[k]@) || !"RVLLM_"@.is_prefix_of(keys@[k]@));
    }
}

proof fn listed_are_known(key: Seq<char>)
    ensures
        listed(key) <==> known(key),
{
    assert(ENV_WHITELIST@[0]@ == "RVLLM_AUTOTUNE_CACHE"@);
    assert(ENV_WHITELIST@[1]@ == "RVLLM_DEVICE"@);
    assert(ENV_WHITELIST@[2]@ == "RVLLM_KERNEL_DIR"@);
    assert(ENV_WHITELIST@[3]@ == "RVLLM_LOG"@);
    assert(ENV_WHITELIST@[4]@ == "RVLLM_NO_GRAPH"@);
}

} // verus!
