use rvllm::arch::Build;
use rvllm::dtype::DType;
use rvllm::error::{CudaErrorKind, RvllmError};
use rvllm::kernels::module::LoadedModule;
use rvllm::mem::capture::record;
use rvllm::mem::context::{
    cuda_err, ContextInit, CudaContextHandle, DriverAnswer, DriverCall, InitStep,
};
use rvllm::mem::cuda_owned::CudaOwned;
use rvllm::mem::hbm::{HbmArena, Region};
use rvllm::mem::kv_layout::KvLayout;
use rvllm::mem::stream::Stream;
use rvllm::mem::tensor::Tensor;
use rvllm::mem::unified::{ManagedAlloc, UnifiedArena};
use rvllm::shape::Shape;

fn qwen_kv() -> KvLayout {
    KvLayout {
        num_blocks: 1024,
        block_size: 64,
        num_kv_heads: 4,
        head_dim: 128,
        dtype: DType::F16,
    }
}

#[test]
fn can_bind_region_into_scope() {
    let mut arena = HbmArena::new_host_stub(1 << 20);
    let region = arena.region("kv", 4096, 128).unwrap();
    let s = Stream::host_stub();
    let ptr = record(&s, |scope| {
        let h = scope.bind(&region);
        Ok(h.device_ptr())
    })
    .unwrap();
    assert_eq!(ptr, region.device_ptr());
}

#[test]
fn capture_hands_its_stream_and_its_error_on() {
    let s = Stream::from_raw(77);
    let raw = record(&s, |scope| Ok(scope.stream().raw())).unwrap();
    assert_eq!(raw, 77);
    let r: Result<u64, RvllmError> = record(&s, |_| Err(cuda_err("cuInit", 0)));
    assert!(r.is_err());
}

#[test]
fn sizes_round_trip() {
    let l = qwen_kv();
    // One block: 64 tokens * 4 heads * 128 dim * 2 bytes = 65536
    assert_eq!(l.block_bytes(), 64 * 4 * 128 * 2);
    // One layer: 2 * 1024 blocks * 65536 bytes = 128 MiB
    assert_eq!(l.layer_bytes(), 2 * 1024 * 65536);
    assert_eq!(l.v_offset(), 1024 * 65536);
}

#[test]
fn strides_are_row_major() {
    let l = qwen_kv();
    let s = l.strides();
    // fastest axis is head_dim
    assert_eq!(s[4], 1);
    assert_eq!(s[3], 128);
    assert_eq!(s[2], 128 * 4);
    assert_eq!(s[1], 128 * 4 * 64);
    assert_eq!(s[0], 128 * 4 * 64 * 1024);
}

#[test]
fn values_lie_behind_keys() {
    let l = KvLayout { dtype: DType::Fp8E4M3, ..qwen_kv() };
    assert_eq!(l.block_bytes(), 64 * 4 * 128);
    assert_eq!(l.v_offset() + l.v_offset(), l.layer_bytes());
    assert_eq!(l.strides()[0] * DType::Fp8E4M3.bytes(), l.v_offset());
}

#[test]
fn tensor_ptr_matches_region_ptr() {
    let mut arena = HbmArena::new_host_stub(1 << 20);
    let r = arena.region("t", 4096, 16).unwrap();
    let t: Tensor<half::f16> = Tensor::new(&r, Shape::new(&[8, 128]), DType::F16);
    assert_eq!(t.device_ptr(), r.device_ptr());
    assert_eq!(t.byte_strides()[0], 128 * 2);
    assert_eq!(t.byte_strides()[1], 2);
}

#[test]
fn tensor_keeps_shape_and_type() {
    let mut arena = HbmArena::new_host_stub(1 << 20);
    let r = arena.region("t", 96, 4).unwrap();
    let t: Tensor<f32> = Tensor::new(&r, Shape::new(&[2, 3, 4]), DType::F32);
    assert_eq!(t.dtype(), DType::F32);
    assert_eq!(t.shape().rank(), 3);
    assert_eq!(t.shape().numel(), 24);
    assert_eq!(t.shape().strides()[..3], [12, 4, 1]);
    assert_eq!(t.byte_strides()[..3], [48, 16, 4]);
}

#[test]
fn shapes() {
    assert_eq!(Shape::new(&[]).numel(), 1);
    assert_eq!(Shape::new(&[]).rank(), 0);
    assert_eq!(Shape::new(&[5]).numel(), 5);
    assert_eq!(Shape::new(&[7, 0, 3]).numel(), 0);
    let s = Shape::new(&[2, 3, 4, 5, 6, 7]);
    assert_eq!(s.rank(), 6);
    assert_eq!(s.numel(), 5040);
    assert_eq!(s.strides(), [2520, 840, 210, 42, 7, 1]);
}

#[test]
fn host_stub_bookkeeping_matches_hbm() {
    let mut a = UnifiedArena::host_stub(1 << 20);
    let r1 = a.region("a", 100, 16).unwrap();
    assert_eq!(r1.device_ptr() % 16, 0);
    let r2 = a.region("b", 200, 256).unwrap();
    assert!(r2.device_ptr() > r1.device_ptr());
    assert!(a.used() >= 300);
}

#[test]
fn arenas_move_between_threads() {
    fn check<T: Send + Sync>() {}
    check::<UnifiedArena<'static>>();
    check::<HbmArena<'static>>();
}

#[test]
fn regions_are_aligned_and_do_not_overlap() {
    let mut a = HbmArena::from_raw_parts(0x1003, 4096);
    let r1 = a.region("a", 10, 1).unwrap();
    let r2 = a.region("b", 20, 64).unwrap();
    let r3 = a.region("c", 0, 8).unwrap();
    assert_eq!((r1.device_ptr(), r1.len(), r1.name()), (0x1003, 10, "a"));
    assert_eq!(r2.device_ptr() % 64, 0);
    assert_eq!(r3.device_ptr() % 8, 0);
    assert!(r1.device_ptr() + 10 <= r2.device_ptr());
    assert!(r2.device_ptr() + 20 <= r3.device_ptr());
    assert_eq!(a.capacity(), 4096);
    assert_eq!(a.free(), a.capacity() - a.used());
}

#[test]
fn full_arena_refuses() {
    let mut a = HbmArena::new_host_stub(64);
    let _ = a.region("a", 60, 1).unwrap();
    let used = a.used();
    match a.region("b", 8, 1) {
        Err(RvllmError::Cuda { kind: CudaErrorKind::AllocFailed, .. }) => {}
        other => panic!("{other:?}"),
    }
    assert_eq!(a.used(), used);
    assert!(a.region("c", 4, 1).is_ok());
}

#[test]
fn restore_gives_regions_back() {
    let mut a = UnifiedArena::host_stub(1024);
    let _ = a.region("weights", 100, 4).unwrap();
    let ck = a.checkpoint();
    let first = a.region("scratch", 300, 16).unwrap().device_ptr();
    a.restore(ck);
    assert_eq!(a.used(), ck);
    assert_eq!(a.free(), 1024 - ck);
    let again = a.region("scratch", 300, 16).unwrap().device_ptr();
    assert_eq!(first, again);
    let inner = a.into_inner();
    assert_eq!(inner.capacity(), 1024);
}

#[test]
fn managed_allocation() {
    let ctx = CudaContextHandle::host_stub();
    let a = UnifiedArena::new(&ctx, 4096, ManagedAlloc::Allocated(0x7000)).unwrap();
    assert_eq!((a.capacity(), a.used()), (4096, 0));
    assert!(UnifiedArena::new(&ctx, 4096, ManagedAlloc::Failed).is_err());
}

#[test]
fn streams_fence() {
    let s = Stream::host_stub();
    assert_eq!(s.raw(), 0);
    assert!(s.fence(None).is_ok());
    assert!(s.fence(Some(0)).is_ok());
    assert!(s.fence(Some(700)).is_err());
}

/// Has two impls for a type that is `Send` and one for a type that is not, so
/// that naming it without its parameter compiles for the latter alone.
trait NotSend<A> {
    fn pinned() {}
}

impl<T: ?Sized> NotSend<()> for T {}

impl<T: ?Sized + Send> NotSend<u8> for T {}

/// The same for `Sync`.
trait NotSync<A> {
    fn unshared() {}
}

impl<T: ?Sized> NotSync<()> for T {}

impl<T: ?Sized + Sync> NotSync<u8> for T {}

fn send_sync<T: Send + Sync>() {}

#[test]
fn a_workers_resources_are_pinned_to_its_thread() {
    <Stream as NotSend<_>>::pinned();
    <Stream as NotSync<_>>::unshared();
    <Region<'static> as NotSend<_>>::pinned();
    <Region<'static> as NotSync<_>>::unshared();
    <Tensor<'static, u8> as NotSend<_>>::pinned();
    <Tensor<'static, u8> as NotSync<_>>::unshared();
    <CudaContextHandle as NotSend<_>>::pinned();
    <CudaContextHandle as NotSync<_>>::unshared();
    <LoadedModule as NotSend<_>>::pinned();
    <LoadedModule as NotSync<_>>::unshared();
    send_sync::<HbmArena<'static>>();
    send_sync::<UnifiedArena<'static>>();
}

struct Owned {
    stream: Stream,
}

impl CudaOwned for Owned {
    fn stream_for_fence(&self) -> &Stream {
        &self.stream
    }
}

#[test]
fn owned_resources_fence_before_they_go() {
    let mut o = Owned { stream: Stream::host_stub() };
    assert!(o.fence_then_destroy(None));
    assert!(o.fence_then_destroy(Some(0)));
    assert!(!o.fence_then_destroy(Some(1)));
}

/// Answers the driver calls of an initialization in turn, and collects them.
fn drive(device: i32, answers: &[DriverAnswer]) -> (Vec<DriverCall>, InitStep) {
    let mut calls = Vec::new();
    let mut step = CudaContextHandle::init(Build::Cuda, device);
    for a in answers {
        step = match step {
            InitStep::Call(c) => {
                calls.push(c.call);
                ContextInit::answered(c, *a)
            }
            done => return (calls, done),
        };
    }
    (calls, step)
}

#[test]
fn context_initialization_succeeds() {
    let (calls, step) = drive(
        3,
        &[
            DriverAnswer::Done,
            DriverAnswer::Number(30),
            DriverAnswer::Number(12),
            DriverAnswer::Number(1),
            DriverAnswer::Context(0xabc),
            DriverAnswer::Done,
        ],
    );
    assert_eq!(
        calls,
        vec![
            DriverCall::Init,
            DriverCall::DeviceGet,
            DriverCall::CcMajor,
            DriverCall::CcMinor,
            DriverCall::PrimaryCtxRetain,
            DriverCall::CtxSetCurrent,
        ]
    );
    match step {
        InitStep::Ready(h) => {
            assert_eq!(h.device(), 3);
            assert_eq!(h.compute_capability(), (12, 1));
            assert_eq!((h.cu_device, h.ctx), (30, 0xabc));
        }
        other => panic!("{other:?}"),
    }
}

#[test]
fn a_retained_context_is_released_when_it_cannot_be_made_current() {
    let good = [
        DriverAnswer::Done,
        DriverAnswer::Number(30),
        DriverAnswer::Number(9),
        DriverAnswer::Number(0),
        DriverAnswer::Context(0xabc),
    ];
    for n in 0..=good.len() {
        let mut answers = good[..n].to_vec();
        answers.push(DriverAnswer::Failed);
        let (_, step) = drive(0, &answers);
        match step {
            InitStep::Failed { err, release } => {
                assert!(matches!(err, RvllmError::Cuda { .. }));
                assert_eq!(release, if n == good.len() { Some(30) } else { None });
            }
            other => panic!("{n}: {other:?}"),
        }
    }
}

#[test]
fn host_build_has_no_device() {
    match CudaContextHandle::init(Build::Host, 3) {
        InitStep::Ready(h) => {
            assert_eq!((h.device(), h.compute_capability(), h.ctx), (3, (0, 0), 0));
        }
        other => panic!("{other:?}"),
    }
    let stub = CudaContextHandle::host_stub();
    assert_eq!(stub.compute_capability(), (0, 0));
}
