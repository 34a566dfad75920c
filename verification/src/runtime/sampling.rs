//! How the next token is picked.

use crate::ids::F32Bits;
use vstd::prelude::*;

verus! {

/// Sampling parameters of a request.
#[derive(Copy, Clone, Debug, PartialEq, Eq, Structural)]
pub struct SamplingParams {
    pub temperature: F32Bits,
}

impl SamplingParams {
    /// The likeliest token is taken: the temperature is zero.
    pub open spec fn greedy_spec(self) -> bool {
        self.temperature.is_zero()
    }

    /// Parameters that always take the likeliest token.
    pub fn greedy() -> (r: SamplingParams)
        ensures
            r == (SamplingParams { temperature: F32Bits(0) }),
            r.greedy_spec(),
    {
        SamplingParams { temperature: F32Bits(0) }
    }

    /// Whether the likeliest token is always taken.
    pub fn is_greedy(&self) -> (r: bool)
        ensures
            r == self.greedy_spec(),
    {
        self.temperature.zero()
    }
}

} // verus!
