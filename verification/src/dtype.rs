//! Element types of device tensors.

use vstd::prelude::*;

verus! {

/// Element type of a tensor.
#[derive(Copy, Clone, Debug, PartialEq, Eq, Structural)]
pub enum DType {
    F32,
    F16,
    Bf16,
    Fp8E4M3,
}

impl DType {
    /// Size of one element in bytes.
    pub open spec fn size(self) -> nat {
        match self {
            DType::F32 => 4,
            DType::F16 => 2,
            DType::Bf16 => 2,
            DType::Fp8E4M3 => 1,
        }
    }

    /// Size of one element in bytes.
    pub fn bytes(self) -> (r: usize)
        ensures
            r == self.size(),
    {
        match self {
            DType::F32 => 4,
            DType::F16 => 2,
            DType::Bf16 => 2,
            DType::Fp8E4M3 => 1,
        }
    }
}

} // verus!
