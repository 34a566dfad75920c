//! Tensor shapes.

use vstd::prelude::*;

verus! {

/// Most axes that a shape can have.
pub const MAX_RANK: usize = 6;

/// The extents of a tensor, outermost axis first.
#[derive(Copy, Clone, Debug)]
pub struct Shape {
    dims: [usize; 6],
    rank: usize,
}

/// The product of the extents.
pub open spec fn product(dims: Seq<usize>) -> nat
    decreases dims.len(),
{
    if dims.len() == 0 {
        1
    } else {
        dims[0] as nat * product(dims.drop_first())
    }
}

/// Distance in elements between neighbours along an axis of a row-major tensor:
/// the product of the extents behind it.
pub open spec fn stride(dims: Seq<usize>, axis: int) -> nat {
    product(dims.skip(axis + 1))
}

/// In a row-major tensor the stride of an axis is the extent of the next axis
/// times its stride, and the innermost stride is one.
pub proof fn strides_are_row_major(dims: Seq<usize>, axis: int)
    requires
        0 <= axis < dims.len(),
    ensures
        axis + 1 < dims.len() ==> stride(dims, axis) == dims[axis + 1] as nat * stride(
            dims,
            axis + 1,
        ),
        axis + 1 == dims.len() ==> stride(dims, axis) == 1,
{
    if axis + 1 < dims.len() {
        assert(dims.skip(axis + 1).drop_first() =~= dims.skip(axis + 2));
        assert(dims.skip(axis + 1)[0] == dims[axis + 1]);
    } else {
        assert(dims.skip(axis + 1) =~= Seq::empty());
    }
}

impl View for Shape {
    type V = Seq<usize>;

    closed spec fn view(&self) -> Seq<usize> {
        self.dims@.take(self.rank as int)
    }
}

impl Shape {
    /// At most `MAX_RANK` axes.
    pub closed spec fn wf(self) -> bool {
        self.rank <= MAX_RANK
    }

    /// The shape with these extents.
    pub fn new(dims: &[usize]) -> (r: Shape)
        requires
            dims@.len() <= MAX_RANK,
        ensures
            r.wf(),
            r@ == dims@,
    {
        let mut all: [usize; 6] = [0; 6];
        let n: usize = dims.len();
        let mut i: usize = 0;
        while i < n
            invariant
                i <= n,
                n == dims@.len(),
                n <= 6,
                all@.len() == 6,
                forall|j: int| 0 <= j < i ==> all@[j] == dims@[j],
            decreases n - i,
        {
            all[i] = dims[i];
            i = i + 1;
        }
        let r = Shape { dims: all, rank: n };
        assert(r@ =~= dims@);
        r
    }

    pub fn rank(&self) -> (r: usize)
        requires
            self.wf(),
        ensures
            r == self@.len(),
            r <= MAX_RANK,
    {
        self.rank
    }

    /// Whether the products of trailing extents can be represented.
    pub open spec fn products_fit(self) -> bool {
        forall|a: int| 0 <= a <= self@.len() ==> product(#[trigger] self@.skip(a)) <= usize::MAX
    }

    /// The number of elements.
    pub fn numel(&self) -> (r: usize)
        requires
            self.wf(),
            self.products_fit(),
        ensures
            r == product(self@),
    {
        let mut n: usize = 1;
        let mut i: usize = self.rank;
        proof {
            assert(self@.skip(self.rank as int) =~= Seq::empty());
        }
        while i > 0
            invariant
                self.wf(),
                self.products_fit(),
                i <= self.rank,
                n == product(self@.skip(i as int)),
            decreases i,
        {
            i = i - 1;
            proof {
                assert(self@.skip(i as int)[0] == self.dims@[i as int]);
                assert(self@.skip(i as int).drop_first() =~= self@.skip(i + 1));
            }
            n = self.dims[i] * n;
        }
        proof {
            assert(self@.skip(0) =~= self@);
        }
        n
    }

    /// The row-major strides in elements; zero for axes that the shape does not
    /// have.
    pub fn strides(&self) -> (r: [usize; 6])
        requires
            self.wf(),
            self.products_fit(),
        ensures
            forall|a: int| 0 <= a < self@.len() ==> #[trigger] r@[a] == stride(self@, a),
            forall|a: int| self@.len() <= a < 6 ==> #[trigger] r@[a] == 0,
    {
        let mut s: [usize; 6] = [0; 6];
        let mut n: usize = 1;
        let mut i: usize = self.rank;
        proof {
            assert(self@.skip(self.rank as int) =~= Seq::empty());
        }
        while i > 0
            invariant
                self.wf(),
                self.products_fit(),
                i <= self.rank,
                self@.len() == self.rank,
                s@.len() == 6,
                n == product(self@.skip(i as int)),
                forall|a: int| i <= a < self.rank ==> #[trigger] s@[a] == stride(self@, a),
                forall|a: int| self.rank <= a < 6 ==> #[trigger] s@[a] == 0,
            decreases i,
        {
            i = i - 1;
            s[i] = n;
            proof {
                assert(self@.skip(i as int)[0] == self.dims@[i as int]);
                assert(self@.skip(i as int).drop_first() =~= self@.skip(i + 1));
            }
            n = self.dims[i] * n;
        }
        s
    }
}

} // verus!
