//! The device operations that a layer is made of. A forward pass is planned as
//! a list of them; the device then performs the list in order, on one stream.

use crate::attention::decode::PagedDecodeParams;
use crate::attention::prefill::UnifiedPrefillLaunch;
use crate::cutlass::lib_so::{GemmCall, PrepCall};
use crate::error::RvllmError;
use crate::fused::launch_raw::RawLaunch;
use crate::ids::F32Bits;
use crate::kernels::module::KernelFn;
use vstd::prelude::*;

verus! {

/// Operands of a cuBLASLt matrix multiplication with one scale per operand.
#[derive(Copy, Clone, Debug, PartialEq, Eq, Structural)]
pub struct LtGemm {
    pub a: u64,
    pub b: u64,
    pub out: u64,
    pub m: i32,
    pub n: i32,
    pub k: i32,
    pub a_scale: u64,
    pub b_scale: u64,
}

/// Operands of a norm over `input` whose result is added to `residual`.
#[derive(Copy, Clone, Debug)]
pub struct NormAdd {
    pub kernel: KernelFn,
    pub num_tokens: u32,
    pub hidden: u32,
    pub eps: F32Bits,
    pub input: u64,
    pub gamma: u64,
    pub residual: u64,
    /// Factor applied to the sum; null for none.
    pub layer_scalar: u64,
}

/// Operands of a kernel that quantizes to FP8 with one scale per token.
#[derive(Copy, Clone, Debug)]
pub struct Quantize {
    pub kernel: KernelFn,
    pub num_tokens: u32,
    pub dim: u32,
    pub out_fp8: u64,
    pub out_scale: u64,
    pub input: u64,
}

/// Operands of the norm of queries, keys and values after their projection.
#[derive(Copy, Clone, Debug)]
pub struct QkvNorm {
    pub kernel: KernelFn,
    pub num_tokens: u32,
    pub num_heads: u32,
    pub num_kv_heads: u32,
    pub head_dim: u32,
    pub eps: F32Bits,
    pub src_row_stride: u32,
    pub q_in: u64,
    pub k_in: u64,
    pub v_in: u64,
    pub q_out: u64,
    pub k_out: u64,
    pub v_out: u64,
    pub q_gamma: u64,
    pub k_gamma: u64,
}

/// Operands of the partial RoPE that writes an FP8 query and an FP8 KV cache.
#[derive(Copy, Clone, Debug)]
pub struct RopeFp8Kv {
    pub kernel: KernelFn,
    pub num_tokens: u32,
    pub num_heads: u32,
    pub num_kv_heads: u32,
    pub head_dim: u32,
    pub rotary_dim: u32,
    pub q_in: u64,
    pub k_in: u64,
    pub v_in: u64,
    pub q_fp8: u64,
    pub k_cache: u64,
    pub v_cache: u64,
    pub k_scale_cache: u64,
    pub v_scale_cache: u64,
    pub q_scale_cache: u64,
    pub cos: u64,
    pub sin: u64,
    pub positions: u64,
    pub slot_mapping: u64,
    pub q_scale: u64,
}

/// Operands of a paged decode over a half-precision KV cache.
#[derive(Copy, Clone, Debug, PartialEq, Eq, Structural)]
pub struct DecodeF16 {
    pub params: PagedDecodeParams,
    pub out: u64,
    pub q: u64,
    pub k_cache: u64,
    pub v_cache: u64,
    pub block_tables: u64,
    pub context_lens: u64,
    pub workspace: u64,
}

/// Operands of a paged decode over an FP8 KV cache.
#[derive(Copy, Clone, Debug, PartialEq, Eq, Structural)]
pub struct DecodeFp8 {
    pub params: PagedDecodeParams,
    pub out: u64,
    pub q_fp8: u64,
    pub k_cache: u64,
    pub v_cache: u64,
    pub k_scale_cache: u64,
    pub v_scale_cache: u64,
    pub q_scale_cache: u64,
    pub k_descale_fallback: u64,
    pub v_descale_fallback: u64,
    pub block_tables: u64,
    pub context_lens: u64,
    pub workspace: u64,
    pub q_descale: u64,
}

/// One device operation.
#[derive(Copy, Clone, Debug)]
#[allow(inconsistent_fields)]
pub enum LayerOp {
    /// Copy between device buffers.
    CopyDtoD { dst: u64, src: u64, bytes: usize },
    /// Upload of the numbers `1, 2, ..., upto` as 32-bit integers.
    UploadCounting { dst: u64, upto: i32 },
    /// RMS norm of `input`, quantized to FP8.
    RmsnormFp8Quant { quant: Quantize, gamma: u64, eps: F32Bits },
    /// RMS norm in place.
    RmsnormInplace {
        kernel: KernelFn,
        num_tokens: u32,
        hidden: u32,
        eps: F32Bits,
        data: u64,
        gamma: u64,
    },
    /// Half-precision matrix multiplication into single precision.
    F16GemmF32 { a: u64, b: u64, out: u64, m: i32, n: i32, k: i32 },
    /// Conversion of `n` elements to half precision.
    CastToF16 { kernel: KernelFn, n: u32, dst: u64, src: u64 },
    /// Product of FP8 weights with half-precision activations, row by row, with
    /// two-dimensional block scales.
    Fp8GemvF16In {
        kernel: KernelFn,
        m: u32,
        n: u32,
        k: u32,
        out: u64,
        weight: u64,
        blockscale: u64,
        input: u64,
    },
    /// FP8 matrix multiplication into half precision.
    Fp8Gemm(LtGemm),
    /// FP8 matrix multiplication into single precision.
    Fp8GemmF32(LtGemm),
    QkvRmsnorm(QkvNorm),
    RopePartialFp8Kv(RopeFp8Kv),
    /// A kernel launched by its raw arguments.
    Raw(RawLaunch),
    PagedDecode(DecodeF16),
    PagedDecodeFp8(DecodeFp8),
    UnifiedPrefill(UnifiedPrefillLaunch),
    QuantizeFp8PerToken(Quantize),
    /// Norm-add over single-precision input.
    NormAddResidual(NormAdd),
    /// Norm-add over half-precision input.
    NormAddResidualF16In(NormAdd),
    /// GELU of the gating half times the up half, quantized to FP8.
    GeluMulFp8Quant(Quantize),
    CutlassPrep(PrepCall),
    CutlassGemm(GemmCall),
    LogitSoftcap { kernel: KernelFn, num_tokens: u32, vocab: u32, cap: F32Bits, logits: u64 },
}

/// What planning comes to: operations in order, and how it ends. With an error
/// at the end, the operations before it have been issued and none after it.
#[verifier::ext_equal]
pub struct Run {
    pub ops: Seq<LayerOp>,
    pub end: Result<(), RvllmError>,
}

impl Run {
    /// Operations that are issued without a check that could fail.
    pub open spec fn of(ops: Seq<LayerOp>) -> Run {
        Run { ops, end: Ok(()) }
    }

    /// This run, and `next` where this one ends well.
    pub open spec fn before(self, next: Run) -> Run {
        if self.end is Ok {
            Run { ops: self.ops + next.ops, end: next.end }
        } else {
            self
        }
    }

    /// Whether an operation prepared by a fallible check is issued, or its error
    /// ends the run.
    pub open spec fn issue(r: Result<LayerOp, RvllmError>) -> Run {
        match r {
            Ok(op) => Run { ops: seq![op], end: Ok(()) },
            Err(e) => Run { ops: Seq::empty(), end: Err(e) },
        }
    }

    /// Whether a list of operations grew from `old_ops` to `new_ops` by this
    /// run, which ended in `r`.
    pub open spec fn recorded(
        self,
        old_ops: Seq<LayerOp>,
        new_ops: Seq<LayerOp>,
        r: Result<(), RvllmError>,
    ) -> bool {
        new_ops =~= old_ops + self.ops && r == self.end
    }
}

/// A run that is recorded behind one that ended well is recorded as its
/// continuation.
pub proof fn runs_are_recorded_in_turn(
    first: Run,
    next: Run,
    start: Seq<LayerOp>,
    mid: Seq<LayerOp>,
    end: Seq<LayerOp>,
    r: Result<(), RvllmError>,
)
    requires
        first.recorded(start, mid, Ok(())),
        next.recorded(mid, end, r),
    ensures
        first.before(next).recorded(start, end, r),
{
}

/// The numbers from one to `upto`, which a counting upload sends.
pub fn counting(upto: i32) -> (r: Vec<i32>)
    ensures
        r@.len() == if upto > 0 {
            upto as int
        } else {
            0
        },
        forall|i: int| 0 <= i < r@.len() ==> r@[i] == i + 1,
{
    let mut r: Vec<i32> = Vec::new();
    let mut next: i32 = 0;
    while next < upto
        invariant
            0 <= next,
            next <= upto || next == 0,
            r@.len() == next,
            forall|i: int| 0 <= i < r@.len() ==> r@[i] == i + 1,
        decreases upto - next,
    {
        next = next + 1;
        r.push(next);
    }
    r
}

} // verus!
