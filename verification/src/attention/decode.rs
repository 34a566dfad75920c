//! Parameters of the paged-decode kernels.

use crate::ids::F32Bits;
use vstd::prelude::*;

verus! {

/// Shape of one decode launch: one query token per sequence.
#[derive(Copy, Clone, Debug, PartialEq, Eq, Structural)]
pub struct PagedDecodeParams {
    pub num_seqs: u32,
    pub num_heads: u32,
    pub num_kv_heads: u32,
    pub head_dim: u32,
    pub block_size: u32,
    pub max_blocks_per_seq: u32,
    pub num_blocks_total: u32,
    pub scale: F32Bits,
    pub window_size_left: i32,
}

} // verus!
