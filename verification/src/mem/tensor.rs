//! A typed, shaped view into a region.

use crate::dtype::DType;
use crate::mem::graph_safe::GraphSafe;
use crate::mem::hbm::Region;
use crate::shape::{product, stride, Shape};
use core::marker::PhantomData;
use vstd::prelude::*;

verus! {

/// A view into a region. `T` is the element type of the host's side; `dtype`
/// says what the device holds, so that a byte-sized element can be FP8. Like its
/// region it is neither `Send` nor `Sync`.
pub struct Tensor<'a, T> {
    region: &'a Region<'a>,
    shape: Shape,
    dtype: DType,
    _phantom: PhantomData<&'a T>,
}

impl<'a, T> Tensor<'a, T> {
    pub closed spec fn start(self) -> u64 {
        self.region.start()
    }

    pub closed spec fn extents(self) -> Seq<usize> {
        self.shape@
    }

    pub closed spec fn element(self) -> DType {
        self.dtype
    }

    /// The shape is valid, and its elements lie inside the region.
    pub closed spec fn wf(self) -> bool {
        self.shape.wf() && self.shape.products_fit() && product(self.shape@) * self.dtype.size()
            <= self.region.size()
    }

    /// A view of a region. The elements must fit into it.
    pub fn new(region: &'a Region<'a>, shape: Shape, dtype: DType) -> (r: Self)
        requires
            shape.wf(),
            shape.products_fit(),
            product(shape@) * dtype.size() <= region.size(),
        ensures
            r.wf(),
            r.start() == region.start(),
            r.extents() == shape@,
            r.element() == dtype,
    {
        Tensor { region, shape, dtype, _phantom: PhantomData }
    }

    pub fn shape(&self) -> (r: &Shape)
        ensures
            r@ == self.extents(),
            self.wf() ==> r.wf() && r.products_fit(),
    {
        &self.shape
    }

    pub fn dtype(&self) -> (r: DType)
        ensures
            r == self.element(),
    {
        self.dtype
    }

    /// Device pointer of the first element.
    pub fn device_ptr(&self) -> (r: u64)
        ensures
            r == self.start(),
    {
        self.region.device_ptr()
    }

    /// Row-major strides in bytes; zero for axes that the shape does not have.
    pub fn byte_strides(&self) -> (r: [usize; 6])
        requires
            self.wf(),
            forall|a: int|
                0 <= a < self.extents().len() ==> #[trigger] stride(self.extents(), a)
                    * self.element().size() <= usize::MAX,
        ensures
            forall|a: int|
                0 <= a < self.extents().len() ==> #[trigger] r@[a] == stride(self.extents(), a)
                    * self.element().size(),
            forall|a: int| self.extents().len() <= a < 6 ==> #[trigger] r@[a] == 0,
    {
        let mut s = self.shape.strides();
        let b: usize = self.dtype.bytes();
        let rank: usize = self.shape.rank();
        let ghost elements = s@;
        let ghost n = rank as int;
        let mut i: usize = 0;
        while i < 6
            invariant
                i <= 6,
                s@.len() == 6,
                elements.len() == 6,
                n == self.extents().len(),
                n <= 6,
                b == self.element().size(),
                forall|a: int|
                    0 <= a < n ==> #[trigger] elements[a] == stride(self.extents(), a),
                forall|a: int| n <= a < 6 ==> #[trigger] elements[a] == 0,
                forall|a: int|
                    0 <= a < n ==> #[trigger] stride(self.extents(), a) * self.element().size()
                        <= usize::MAX,
                forall|a: int| 0 <= a < i ==> #[trigger] s@[a] == elements[a] * b,
                forall|a: int| i <= a < 6 ==> #[trigger] s@[a] == elements[a],
            decreases 6 - i,
        {
            proof {
                assert(s@[i as int] == elements[i as int]);
                if i < n {
                    assert(stride(self.extents(), i as int) * self.element().size()
                        <= usize::MAX);
                } else {
                    assert(elements[i as int] == 0);
                }
            }
            s[i] = s[i] * b;
            i = i + 1;
        }
        proof {
            assert forall|a: int| n <= a < 6 implies #[trigger] s@[a] == 0 by {
                assert(s@[a] == elements[a] * b);
            }
            assert forall|a: int| 0 <= a < n implies #[trigger] s@[a] == stride(self.extents(), a)
                * self.element().size() by {
                assert(s@[a] == elements[a] * b);
            }
        }
        s
    }
}

impl<'a, T> GraphSafe for Tensor<'a, T> {

}

} // verus!
