//! Raw kernel launches: what is handed to `cuLaunchKernel`, and what its answer
//! means.

use crate::error::{CudaCtx, CudaErrorKind, Launch, RvllmError};
use crate::ids::F32Bits;
use crate::kernels::module::KernelFn;
use vstd::prelude::*;

verus! {

/// One kernel argument.
#[derive(Copy, Clone, Debug, PartialEq, Eq, Structural)]
pub enum KernelArg {
    Ptr(u64),
    I32(i32),
    F32(F32Bits),
}

/// Arguments of the row- and column-scaling kernels.
#[derive(Copy, Clone, Debug, PartialEq, Eq, Structural)]
pub struct ScaleArgs {
    pub data: u64,
    pub scale: u64,
    pub m: i32,
    pub n: i32,
}

/// Arguments of the half-precision GELU kernel.
#[derive(Copy, Clone, Debug, PartialEq, Eq, Structural)]
pub struct GeluMulArgs {
    pub out: u64,
    pub inp: u64,
    pub intermediate: i32,
}

/// Arguments of the partial-RoPE kernel with a half-precision KV cache.
#[derive(Copy, Clone, Debug, PartialEq, Eq, Structural)]
pub struct RopeF16KvArgs {
    pub q_in: u64,
    pub k_in: u64,
    pub v_in: u64,
    pub q_out: u64,
    pub k_cache: u64,
    pub v_cache: u64,
    pub cos: u64,
    pub sin: u64,
    pub positions: u64,
    pub slot_mapping: u64,
    pub num_tokens: i32,
    pub num_heads: i32,
    pub num_kv_heads: i32,
    pub head_dim: i32,
    pub rotary_dim: i32,
}

/// Arguments of the unified FP8 prefill kernel.
#[derive(Copy, Clone, Debug, PartialEq, Eq, Structural)]
pub struct UnifiedPrefillArgs {
    pub out: u64,
    pub q: u64,
    pub k: u64,
    pub v: u64,
    pub k_scale: u64,
    pub v_scale: u64,
    pub q_scale: u64,
    pub k_descale_fallback: u64,
    pub v_descale_fallback: u64,
    pub block_tables: u64,
    pub cu_seqlens_q: u64,
    pub context_lens: u64,
    pub q_descale_fallback: u64,
    pub scale: F32Bits,
    pub num_heads: i32,
    pub num_kv_heads: i32,
    pub head_dim: i32,
    pub block_size: i32,
    pub max_blocks_per_seq: i32,
    pub tile_size: i32,
    pub num_queries_per_kv: i32,
    pub block_q: i32,
    pub num_seqs: i32,
    pub window_size_left: i32,
    pub use_mma: i32,
}

/// The arguments of a kernel, by kernel.
#[derive(Copy, Clone, Debug, PartialEq, Eq, Structural)]
pub enum KernelArgs {
    Scale(ScaleArgs),
    GeluMul(GeluMulArgs),
    RopeF16Kv(RopeF16KvArgs),
    UnifiedPrefill(UnifiedPrefillArgs),
}

impl KernelArgs {
    /// The arguments in the order of the kernel's signature.
    pub open spec fn in_order(self) -> Seq<KernelArg> {
        match self {
            KernelArgs::Scale(a) => seq![
                KernelArg::Ptr(a.data),
                KernelArg::Ptr(a.scale),
                KernelArg::I32(a.m),
                KernelArg::I32(a.n),
            ],
            KernelArgs::GeluMul(a) => seq![
                KernelArg::Ptr(a.out),
                KernelArg::Ptr(a.inp),
                KernelArg::I32(a.intermediate),
            ],
            KernelArgs::RopeF16Kv(a) => seq![
                KernelArg::Ptr(a.q_in),
                KernelArg::Ptr(a.k_in),
                KernelArg::Ptr(a.v_in),
                KernelArg::Ptr(a.q_out),
                KernelArg::Ptr(a.k_cache),
                KernelArg::Ptr(a.v_cache),
                KernelArg::Ptr(a.cos),
                KernelArg::Ptr(a.sin),
                KernelArg::Ptr(a.positions),
                KernelArg::Ptr(a.slot_mapping),
                KernelArg::I32(a.num_tokens),
                KernelArg::I32(a.num_heads),
                KernelArg::I32(a.num_kv_heads),
                KernelArg::I32(a.head_dim),
                KernelArg::I32(a.rotary_dim),
            ],
            KernelArgs::UnifiedPrefill(a) => seq![
                KernelArg::Ptr(a.out),
                KernelArg::Ptr(a.q),
                KernelArg::Ptr(a.k),
                KernelArg::Ptr(a.v),
                KernelArg::Ptr(a.k_scale),
                KernelArg::Ptr(a.v_scale),
                KernelArg::Ptr(a.q_scale),
                KernelArg::Ptr(a.k_descale_fallback),
                KernelArg::Ptr(a.v_descale_fallback),
                KernelArg::Ptr(a.block_tables),
                KernelArg::Ptr(a.cu_seqlens_q),
                KernelArg::Ptr(a.context_lens),
                KernelArg::Ptr(a.q_descale_fallback),
                KernelArg::F32(a.scale),
                KernelArg::I32(a.num_heads),
                KernelArg::I32(a.num_kv_heads),
                KernelArg::I32(a.head_dim),
                KernelArg::I32(a.block_size),
                KernelArg::I32(a.max_blocks_per_seq),
                KernelArg::I32(a.tile_size),
                KernelArg::I32(a.num_queries_per_kv),
                KernelArg::I32(a.block_q),
                KernelArg::I32(a.num_seqs),
                KernelArg::I32(a.window_size_left),
                KernelArg::I32(a.use_mma),
            ],
        }
    }

    /// The arguments in the order of the kernel's signature.
    pub fn list(&self) -> (r: Vec<KernelArg>)
        ensures
            r@ == self.in_order(),
    {
        match *self {
            KernelArgs::Scale(a) => vec![
                KernelArg::Ptr(a.data),
                KernelArg::Ptr(a.scale),
                KernelArg::I32(a.m),
                KernelArg::I32(a.n),
            ],
            KernelArgs::GeluMul(a) => vec![
                KernelArg::Ptr(a.out),
                KernelArg::Ptr(a.inp),
                KernelArg::I32(a.intermediate),
            ],
            KernelArgs::RopeF16Kv(a) => vec![
                KernelArg::Ptr(a.q_in),
                KernelArg::Ptr(a.k_in),
                KernelArg::Ptr(a.v_in),
                KernelArg::Ptr(a.q_out),
                KernelArg::Ptr(a.k_cache),
                KernelArg::Ptr(a.v_cache),
                KernelArg::Ptr(a.cos),
                KernelArg::Ptr(a.sin),
                KernelArg::Ptr(a.positions),
                KernelArg::Ptr(a.slot_mapping),
                KernelArg::I32(a.num_tokens),
                KernelArg::I32(a.num_heads),
                KernelArg::I32(a.num_kv_heads),
                KernelArg::I32(a.head_dim),
                KernelArg::I32(a.rotary_dim),
            ],
            KernelArgs::UnifiedPrefill(a) => vec![
                KernelArg::Ptr(a.out),
                KernelArg::Ptr(a.q),
                KernelArg::Ptr(a.k),
                KernelArg::Ptr(a.v),
                KernelArg::Ptr(a.k_scale),
                KernelArg::Ptr(a.v_scale),
                KernelArg::Ptr(a.q_scale),
                KernelArg::Ptr(a.k_descale_fallback),
                KernelArg::Ptr(a.v_descale_fallback),
                KernelArg::Ptr(a.block_tables),
                KernelArg::Ptr(a.cu_seqlens_q),
                KernelArg::Ptr(a.context_lens),
                KernelArg::Ptr(a.q_descale_fallback),
                KernelArg::F32(a.scale),
                KernelArg::I32(a.num_heads),
                KernelArg::I32(a.num_kv_heads),
                KernelArg::I32(a.head_dim),
                KernelArg::I32(a.block_size),
                KernelArg::I32(a.max_blocks_per_seq),
                KernelArg::I32(a.tile_size),
                KernelArg::I32(a.num_queries_per_kv),
                KernelArg::I32(a.block_q),
                KernelArg::I32(a.num_seqs),
                KernelArg::I32(a.window_size_left),
                KernelArg::I32(a.use_mma),
            ],
        }
    }
}

/// One call of `cuLaunchKernel`.
#[derive(Copy, Clone, Debug)]
pub struct RawLaunch {
    pub kernel: KernelFn,
    pub grid: (u32, u32, u32),
    pub block: (u32, u32, u32),
    pub shared_mem_bytes: u32,
    pub stream: u64,
    pub args: KernelArgs,
}

/// The launch of a kernel. Every launch with raw arguments goes through here.
pub fn launch_raw(
    kernel: KernelFn,
    grid: (u32, u32, u32),
    block: (u32, u32, u32),
    shared_mem_bytes: u32,
    stream: u64,
    args: KernelArgs,
) -> (r: RawLaunch)
    ensures
        r == (RawLaunch { kernel, grid, block, shared_mem_bytes, stream, args }),
{
    RawLaunch { kernel, grid, block, shared_mem_bytes, stream, args }
}

impl RawLaunch {
    /// The error of a launch that the driver refused.
    pub open spec fn failure(self) -> RvllmError {
        RvllmError::Cuda {
            op: "cuLaunchKernel",
            kind: CudaErrorKind::LaunchFailed,
            ctx: CudaCtx {
                stream: self.stream,
                kernel: self.kernel.name,
                launch: Some(
                    Launch { grid: self.grid, block: self.block, smem: self.shared_mem_bytes },
                ),
                device: -1i32,
            },
        }
    }

    /// What the driver's answer means: zero is success. A host build has no
    /// driver to ask, launches nothing and succeeds, so that the checks around a
    /// launch run without a GPU.
    pub fn finish(&self, rc: Option<u32>) -> (r: Result<(), RvllmError>)
        ensures
            r == if rc is None || rc == Some(0u32) {
                Ok::<(), RvllmError>(())
            } else {
                Err(self.failure())
            },
    {
        let code: u32 = match rc {
            Some(code) => code,
            None => 0,
        };
        if code != 0 {
            return Err(
                RvllmError::cuda(
                    "cuLaunchKernel",
                    CudaErrorKind::LaunchFailed,
                    CudaCtx {
                        stream: self.stream,
                        kernel: self.kernel.name(),
                        launch: Some(
                            Launch {
                                grid: self.grid,
                                block: self.block,
                                smem: self.shared_mem_bytes,
                            },
                        ),
                        device: -1,
                    },
                ),
            );
        }
        Ok(())
    }
}

} // verus!
