//! How elements lie in tensors and in the KV cache, said of what the functions
//! return.

use crate::arch::Build;
use crate::dtype::DType;
use crate::error::RvllmError;
use crate::mem::context::{
    ContextInit, CudaContextHandle, DriverAnswer, DriverCall, InitStep,
};
use crate::mem::hbm::Region;
use crate::mem::kv_layout::{kv_strides_are_row_major, values_follow_keys, KvLayout};
use crate::mem::stream::Stream;
use crate::mem::tensor::Tensor;
use crate::shape::{stride, strides_are_row_major, Shape};
use vstd::prelude::*;

verus! {

/// The strides of a KV cache are row-major, with blocks outside tokens, tokens
/// outside heads and heads outside dimensions; values lie behind all keys, at
/// the stride of the outermost axis, and a layer is both.
pub proof fn kv_sizes_follow_from_the_strides(
    l: KvLayout,
    strides: [usize; 5],
    block: usize,
    v: usize,
    layer: usize,
    element: usize,
)
    requires
        call_ensures(KvLayout::strides, (&l,), strides),
        call_ensures(KvLayout::block_bytes, (&l,), block),
        call_ensures(KvLayout::v_offset, (&l,), v),
        call_ensures(KvLayout::layer_bytes, (&l,), layer),
        call_ensures(DType::bytes, (l.dtype,), element),
    ensures
        strides@[4] == 1,
        strides@[3] == l.head_dim * strides@[4],
        strides@[2] == l.num_kv_heads * strides@[3],
        strides@[1] == l.block_size * strides@[2],
        strides@[0] == l.num_blocks * strides@[1],
        block == strides@[1] * element,
        v == strides@[0] * element,
        layer == 2 * v,
{
    kv_strides_are_row_major(l);
    values_follow_keys(l);
    assert(strides@[0] == l.stride(0));
    assert(strides@[1] == l.stride(1));
    assert(strides@[2] == l.stride(2));
    assert(strides@[3] == l.stride(3));
    assert(strides@[4] == l.stride(4));
}

/// A single takes four bytes, the two half formats two, and FP8 one.
pub proof fn elements_have_their_sizes(t: DType, r: usize)
    requires
        call_ensures(DType::bytes, (t,), r),
    ensures
        r == 4 <==> t is F32,
        r == 2 <==> t is F16 || t is Bf16,
        r == 1 <==> t is Fp8E4M3,
{
}

/// The strides of a shape are row-major: the innermost is one, each other is the
/// extent of the next axis times its stride, axes that are not there have none,
/// and the outermost extent times its stride is the number of elements.
pub proof fn shapes_are_row_major(s: Shape, strides: [usize; 6], numel: usize, axis: int)
    requires
        call_ensures(Shape::strides, (&s,), strides),
        call_ensures(Shape::numel, (&s,), numel),
        s@.len() <= 6,
        0 <= axis < 6,
    ensures
        axis >= s@.len() ==> strides@[axis] == 0,
        axis + 1 == s@.len() ==> strides@[axis] == 1,
        axis + 1 < s@.len() ==> strides@[axis] == s@[axis + 1] * strides@[axis + 1],
        s@.len() > 0 ==> numel == s@[0] * strides@[0],
        s@.len() == 0 ==> numel == 1,
{
    if axis < s@.len() {
        strides_are_row_major(s@, axis);
    }
    if s@.len() > 0 {
        assert(s@.skip(1) =~= s@.drop_first());
    }
}

/// A tensor's strides in bytes are its row-major strides times the size of an
/// element.
pub proof fn tensors_are_row_major(
    t: Tensor<'_, u8>,
    bytes: [usize; 6],
    element: usize,
    axis: int,
)
    requires
        call_ensures(Tensor::<u8>::byte_strides, (&t,), bytes),
        call_ensures(DType::bytes, (t.element(),), element),
        t.extents().len() <= 6,
        0 <= axis < 6,
    ensures
        axis >= t.extents().len() ==> bytes@[axis] == 0,
        axis + 1 == t.extents().len() ==> bytes@[axis] == element,
        axis + 1 < t.extents().len() ==> bytes@[axis] == t.extents()[axis + 1] * bytes@[axis + 1],
{
    let dims = t.extents();
    if axis < dims.len() {
        strides_are_row_major(dims, axis);
        assert(bytes@[axis] == stride(dims, axis) * element);
        if axis + 1 == dims.len() {
            assert(1 * element == element);
        } else {
            let d = dims[axis + 1] as nat;
            let n = stride(dims, axis + 1);
            assert(bytes@[axis + 1] == n * element);
            assert((d * n) * element == d * (n * element)) by (nonlinear_arith);
        }
    }
}

/// The calls of an initialization come in their order, and each failure names its
/// own call and the device. A reference on the primary context is to be given back
/// exactly where it had been taken.
pub proof fn failures_name_their_call(init: ContextInit, r: InitStep)
    requires
        call_ensures(ContextInit::answered, (init, DriverAnswer::Failed), r),
    ensures
        r matches InitStep::Failed { err, release } && {
            &&& err matches RvllmError::Cuda { op, ctx, .. } && ctx.device == init.handle.device
                && ctx.kernel == op && op == match init.call {
                DriverCall::Init => "cuInit",
                DriverCall::DeviceGet => "cuDeviceGet",
                DriverCall::CcMajor => "cuDeviceGetAttribute(CC_MAJOR)",
                DriverCall::CcMinor => "cuDeviceGetAttribute(CC_MINOR)",
                DriverCall::PrimaryCtxRetain => "cuDevicePrimaryCtxRetain",
                DriverCall::CtxSetCurrent => "cuCtxSetCurrent",
            }
            &&& init.call is CtxSetCurrent ==> release == Some(init.handle.cu_device)
            &&& !(init.call is CtxSetCurrent) ==> release is None
        },
{
}

/// An initialization whose calls are all answered ends with a context that holds
/// the answers, each in its place.
pub proof fn answers_make_up_the_context(
    device: i32,
    cu_device: i32,
    major: i32,
    minor: i32,
    ctx: u64,
    s0: ContextInit,
    s1: ContextInit,
    s2: ContextInit,
    s3: ContextInit,
    s4: ContextInit,
    s5: ContextInit,
    end: InitStep,
)
    requires
        call_ensures(CudaContextHandle::init, (Build::Cuda, device), InitStep::Call(s0)),
        call_ensures(ContextInit::answered, (s0, DriverAnswer::Done), InitStep::Call(s1)),
        call_ensures(
            ContextInit::answered,
            (s1, DriverAnswer::Number(cu_device)),
            InitStep::Call(s2),
        ),
        call_ensures(ContextInit::answered, (s2, DriverAnswer::Number(major)), InitStep::Call(s3)),
        call_ensures(ContextInit::answered, (s3, DriverAnswer::Number(minor)), InitStep::Call(s4)),
        call_ensures(ContextInit::answered, (s4, DriverAnswer::Context(ctx)), InitStep::Call(s5)),
        call_ensures(ContextInit::answered, (s5, DriverAnswer::Done), end),
    ensures
        s0.call is Init && s1.call is DeviceGet && s2.call is CcMajor && s3.call is CcMinor,
        s4.call is PrimaryCtxRetain && s5.call is CtxSetCurrent,
        end matches InitStep::Ready(h) && h.device == device && h.cu_device == cu_device && h.ctx
            == ctx && h.compute_cap == (major, minor),
{
}

/// A stream was waited for exactly where the driver answered zero; a host build has
/// nothing to wait for. The error names the stream.
pub proof fn fences_hold_where_the_driver_says_so(
    s: Stream,
    rc: Option<u32>,
    r: Result<(), RvllmError>,
)
    requires
        call_ensures(Stream::fence, (&s, rc), r),
    ensures
        r is Err <==> (rc matches Some(code) && code != 0),
        r matches Err(e) ==> (e matches RvllmError::Cuda { ctx, .. } && ctx.stream == s.handle()),
{
}

/// A tensor starts where its region does, with the extents and the element that it
/// was made with.
pub proof fn tensors_view_their_region(
    region: &Region<'_>,
    shape: Shape,
    dtype: DType,
    t: Tensor<'_, u8>,
    at: u64,
    element: DType,
)
    requires
        call_ensures(Tensor::<u8>::new, (region, shape, dtype), t),
        call_ensures(Tensor::<u8>::device_ptr, (&t,), at),
        call_ensures(Tensor::<u8>::dtype, (&t,), element),
    ensures
        at == region.start(),
        element == dtype,
        t.extents() == shape@,
{
}

} // verus!
