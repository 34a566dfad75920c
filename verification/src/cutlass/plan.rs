//! One planned matrix multiplication.

use crate::error::{CutlassCtx, CutlassError, RvllmError};
use vstd::prelude::*;

verus! {

/// A kernel variant of the autotune catalog. Variants from 100 on add a
/// residual in their epilogue.
#[derive(Copy, Clone, Debug, PartialEq, Eq, Structural)]
pub struct VariantId(pub u32);

/// Shape, variant and workspace of one FP8 matrix multiplication.
#[derive(Copy, Clone, Debug, PartialEq, Eq, Structural)]
pub struct Fp8GemmPlan {
    pub m: u32,
    pub n: u32,
    pub k: u32,
    pub variant: VariantId,
    pub workspace_bytes: usize,
}

impl Fp8GemmPlan {
    /// Whether a workspace of this many bytes is enough.
    pub open spec fn workspace_checked(self, workspace_size: usize) -> Result<(), RvllmError> {
        if workspace_size < self.workspace_bytes {
            Err(
                RvllmError::Cutlass {
                    err: CutlassError::WorkspaceTooSmall {
                        needed: self.workspace_bytes,
                        got: workspace_size,
                    },
                    ctx: CutlassCtx { kernel: "Fp8GemmPlan::check_workspace", stream: 0 },
                },
            )
        } else {
            Ok(())
        }
    }

    /// Refuses a workspace that is smaller than the plan needs.
    pub fn check_workspace(&self, workspace_size: usize) -> (r: Result<(), RvllmError>)
        ensures
            r == self.workspace_checked(workspace_size),
    {
        if workspace_size < self.workspace_bytes {
            return Err(
                RvllmError::cutlass(
                    CutlassError::WorkspaceTooSmall {
                        needed: self.workspace_bytes,
                        got: workspace_size,
                    },
                    CutlassCtx { kernel: "Fp8GemmPlan::check_workspace", stream: 0 },
                ),
            );
        }
        Ok(())
    }
}

} // verus!
