//! Graph capture. A scope is the only handle through which device memory is
//! bound into a captured graph, and it binds only what does not move.

use crate::error::RvllmError;
use crate::mem::graph_safe::GraphSafe;
use crate::mem::hbm::Region;
use crate::mem::stream::Stream;
use crate::mem::tensor::Tensor;
use core::marker::PhantomData;
use vstd::prelude::*;

verus! {

/// A bound value. It cannot outlive the scope that bound it.
pub struct BoundHandle<'g> {
    device_ptr: u64,
    _scope: PhantomData<&'g ()>,
}

impl<'g> BoundHandle<'g> {
    pub closed spec fn bound_to(self) -> u64 {
        self.device_ptr
    }

    pub fn device_ptr(&self) -> (r: u64)
        ensures
            r == self.bound_to(),
    {
        self.device_ptr
    }
}

/// A value with a device pointer.
pub trait HasDevicePtr {
    spec fn pointer(&self) -> u64;

    fn device_ptr(&self) -> (r: u64)
        ensures
            r == self.pointer(),
    ;
}

impl<'a> HasDevicePtr for Region<'a> {
    open spec fn pointer(&self) -> u64 {
        self.start()
    }

    fn device_ptr(&self) -> (r: u64) {
        Region::device_ptr(self)
    }
}

impl<'a, T> HasDevicePtr for Tensor<'a, T> {
    open spec fn pointer(&self) -> u64 {
        self.start()
    }

    fn device_ptr(&self) -> (r: u64) {
        Tensor::device_ptr(self)
    }
}

/// A capture in progress on a stream. `record` alone makes one.
pub struct CaptureScope<'g, 's> {
    stream: &'s Stream,
    _scope: PhantomData<&'g ()>,
}

impl<'g, 's> CaptureScope<'g, 's> {
    /// The stream that is captured.
    pub closed spec fn captures(self) -> &'s Stream {
        self.stream
    }

    /// Binds a value. An arena cannot be bound: it is not `GraphSafe`.
    pub fn bind<T>(&mut self, value: &'g T) -> (r: BoundHandle<'g>) where
        T: GraphSafe + HasDevicePtr,

        ensures
            r.bound_to() == value.pointer(),
            *final(self) == *old(self),
    {
        BoundHandle { device_ptr: value.device_ptr(), _scope: PhantomData }
    }

    pub fn stream(&self) -> (r: &'s Stream)
        ensures
            r == self.captures(),
    {
        self.stream
    }
}

/// Runs `body` with a scope on `stream`. The scope is the only thing that it is
/// given, so it cannot allocate.
pub fn record<'s, F, R>(stream: &'s Stream, body: F) -> (r: Result<R, RvllmError>) where
    F: FnOnce(&mut CaptureScope<'s, 's>) -> Result<R, RvllmError>,

    requires
        forall|scope: &mut CaptureScope<'s, 's>|
            scope.captures() == stream ==> #[trigger] call_requires(body, (scope,)),
    ensures
        exists|scope: &mut CaptureScope<'s, 's>|
            scope.captures() == stream && #[trigger] call_ensures(body, (scope,), r),
{
    let mut scope = CaptureScope { stream, _scope: PhantomData };
    body(&mut scope)
}

} // verus!
