//! The layout of the KV cache: `[2, num_blocks, block_size, num_kv_heads,
//! head_dim]`, keys first and values behind them.

use crate::dtype::DType;
use vstd::prelude::*;

verus! {

/// The KV cache of one layer.
#[derive(Copy, Clone, Debug, PartialEq, Eq, Structural)]
pub struct KvLayout {
    pub num_blocks: u32,
    pub block_size: u32,
    pub num_kv_heads: u32,
    pub head_dim: u32,
    pub dtype: DType,
}

impl KvLayout {
    /// Elements of one block of keys, or of values.
    pub open spec fn block_elements(self) -> nat {
        self.block_size as nat * self.num_kv_heads as nat * self.head_dim as nat
    }

    /// Bytes of one block of keys, or of values.
    pub open spec fn block_size_bytes(self) -> nat {
        self.block_elements() * self.dtype.size()
    }

    /// Whether the block's size, computed from left to right, can be
    /// represented.
    pub open spec fn block_fits(self) -> bool {
        &&& self.block_size as nat * self.num_kv_heads as nat <= usize::MAX
        &&& self.block_elements() <= usize::MAX
        &&& self.block_size_bytes() <= usize::MAX
    }

    /// Bytes of one block of keys, or of values.
    pub fn block_bytes(&self) -> (r: usize)
        requires
            self.block_fits(),
        ensures
            r == self.block_size_bytes(),
    {
        (self.block_size as usize) * (self.num_kv_heads as usize) * (self.head_dim as usize)
            * self.dtype.bytes()
    }

    /// Bytes of one layer: keys and values.
    pub fn layer_bytes(&self) -> (r: usize)
        requires
            self.block_fits(),
            2 * self.num_blocks <= usize::MAX,
            2 * self.num_blocks as nat * self.block_size_bytes() <= usize::MAX,
        ensures
            r == 2 * self.num_blocks as nat * self.block_size_bytes(),
    {
        2 * (self.num_blocks as usize) * self.block_bytes()
    }

    /// Where the values start within a layer.
    pub fn v_offset(&self) -> (r: usize)
        requires
            self.block_fits(),
            self.num_blocks as nat * self.block_size_bytes() <= usize::MAX,
        ensures
            r == self.num_blocks as nat * self.block_size_bytes(),
    {
        (self.num_blocks as usize) * self.block_bytes()
    }

    /// The stride of an axis in elements. Axes are keys or values, block, token
    /// in the block, KV head, and dimension of the head.
    pub open spec fn stride(self, axis: int) -> nat {
        let d = self.head_dim as nat;
        let h = self.num_kv_heads as nat;
        let b = self.block_size as nat;
        let n = self.num_blocks as nat;
        if axis == 0 {
            n * b * h * d
        } else if axis == 1 {
            b * h * d
        } else if axis == 2 {
            h * d
        } else if axis == 3 {
            d
        } else {
            1
        }
    }

    /// Whether the strides, computed from left to right, can be represented.
    pub open spec fn strides_fit(self) -> bool {
        let h = self.num_kv_heads as nat;
        let b = self.block_size as nat;
        let n = self.num_blocks as nat;
        &&& n * b <= usize::MAX
        &&& n * b * h <= usize::MAX
        &&& self.stride(0) <= usize::MAX
        &&& b * h <= usize::MAX
        &&& self.stride(1) <= usize::MAX
        &&& self.stride(2) <= usize::MAX
    }

    /// Row-major strides in elements, by axis: keys or values, block, token in
    /// the block, KV head, dimension of the head.
    pub fn strides(&self) -> (r: [usize; 5])
        requires
            self.strides_fit(),
        ensures
            forall|a: int| 0 <= a < 5 ==> #[trigger] r@[a] == self.stride(a),
    {
        let d: usize = self.head_dim as usize;
        let h: usize = self.num_kv_heads as usize;
        let b: usize = self.block_size as usize;
        let n: usize = self.num_blocks as usize;
        [n * b * h * d, b * h * d, h * d, d, 1]
    }
}

/// A layer is twice its values' offset: keys and values are equally large and
/// follow each other without a gap.
pub proof fn values_follow_keys(l: KvLayout)
    ensures
        2 * l.num_blocks as nat * l.block_size_bytes() == 2 * (l.num_blocks as nat
            * l.block_size_bytes()),
        l.num_blocks as nat * l.block_size_bytes() == l.stride(0) * l.dtype.size(),
        l.block_size_bytes() == l.stride(1) * l.dtype.size(),
{
    let n = l.num_blocks as nat;
    let b = l.block_size as nat;
    let h = l.num_kv_heads as nat;
    let d = l.head_dim as nat;
    let e = l.dtype.size();
    assert(2 * n * (b * h * d * e) == 2 * (n * (b * h * d * e))) by (nonlinear_arith);
    assert(n * (b * h * d * e) == n * b * h * d * e) by (nonlinear_arith);
}

/// The strides are row-major: each is the extent of the next axis times the next
/// stride.
pub proof fn kv_strides_are_row_major(l: KvLayout)
    ensures
        l.stride(4) == 1,
        l.stride(3) == l.head_dim as nat * l.stride(4),
        l.stride(2) == l.num_kv_heads as nat * l.stride(3),
        l.stride(1) == l.block_size as nat * l.stride(2),
        l.stride(0) == l.num_blocks as nat * l.stride(1),
{
    let n = l.num_blocks as nat;
    let b = l.block_size as nat;
    let h = l.num_kv_heads as nat;
    let d = l.head_dim as nat;
    assert(d * 1 == d) by (nonlinear_arith);
    assert(b * h * d == b * (h * d)) by (nonlinear_arith);
    assert(n * b * h * d == n * (b * h * d)) by (nonlinear_arith);
}

} // verus!
