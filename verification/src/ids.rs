//! Identifier newtypes shared by the scheduler, the metadata packer and the
//! graph pool.

use vstd::prelude::*;

verus! {

/// A request as the caller knows it.
#[derive(Copy, Clone, Debug, PartialEq, Eq, Structural)]
pub struct ReqId(pub u64);

/// One entry of the vocabulary.
#[derive(Copy, Clone, Debug, PartialEq, Eq, Structural)]
pub struct TokenId(pub u32);

/// One block of the paged KV cache.
#[derive(Copy, Clone, Debug, PartialEq, Eq, Structural)]
pub struct BlockId(pub u32);

/// Digest of a metadata layout, carried by captured graphs.
#[derive(Copy, Clone, Debug, PartialEq, Eq)]
pub struct MetaLayoutHash(pub [u8; 32]);

/// The bit pattern of an IEEE-754 single. The library moves such values from
/// configuration to kernel arguments and orders them; it does no arithmetic on
/// them.
#[derive(Copy, Clone, Debug, PartialEq, Eq, Structural)]
pub struct F32Bits(pub u32);

/// The bit pattern of an IEEE-754 double, carried through unchanged.
#[derive(Copy, Clone, Debug, PartialEq, Eq, Structural)]
pub struct F64Bits(pub u64);

/// Largest magnitude bits of a single that is a number; above it lie the NaNs.
pub const F32_INFINITY: u32 = 0x7f80_0000;

/// Largest magnitude bits of a double that is a number; above it lie the NaNs.
pub const F64_INFINITY: u64 = 0x7ff0_0000_0000_0000;

impl F32Bits {
    /// The bits below the sign.
    pub open spec fn magnitude(self) -> int {
        self.0 as int % 0x8000_0000
    }

    pub open spec fn is_nan(self) -> bool {
        self.magnitude() > F32_INFINITY
    }

    /// An integer that orders numbers as their values do; both zeros map to
    /// zero.
    pub open spec fn rank(self) -> int {
        if self.0 >= 0x8000_0000 {
            -self.magnitude()
        } else {
            self.magnitude()
        }
    }

    /// The order of values: nothing is less than a NaN, and a NaN is less than
    /// nothing.
    pub open spec fn less(self, other: F32Bits) -> bool {
        !self.is_nan() && !other.is_nan() && self.rank() < other.rank()
    }

    /// Whether the value is zero, of either sign.
    pub open spec fn is_zero(self) -> bool {
        self.magnitude() == 0
    }

    fn parts(&self) -> (r: (bool, u32))
        ensures
            r.0 == (self.0 >= 0x8000_0000),
            r.1 == self.magnitude(),
    {
        if self.0 >= 0x8000_0000 {
            (true, self.0 - 0x8000_0000)
        } else {
            (false, self.0)
        }
    }

    /// Whether this value is less than the other.
    pub fn less_than(&self, other: &F32Bits) -> (r: bool)
        ensures
            r == self.less(*other),
    {
        let (sa, ma) = self.parts();
        let (sb, mb) = other.parts();
        if ma > F32_INFINITY || mb > F32_INFINITY {
            return false;
        }
        if sa {
            if sb {
                ma > mb
            } else {
                ma > 0 || mb > 0
            }
        } else {
            !sb && ma < mb
        }
    }

    /// Whether the value is zero, of either sign.
    pub fn zero(&self) -> (r: bool)
        ensures
            r == self.is_zero(),
    {
        let (_, m) = self.parts();
        m == 0
    }
}

impl F64Bits {
    /// The bits below the sign.
    pub open spec fn magnitude(self) -> int {
        self.0 as int % 0x8000_0000_0000_0000
    }

    pub open spec fn is_nan(self) -> bool {
        self.magnitude() > F64_INFINITY
    }

    /// An integer that orders numbers as their values do; both zeros map to
    /// zero.
    pub open spec fn rank(self) -> int {
        if self.0 >= 0x8000_0000_0000_0000 {
            -self.magnitude()
        } else {
            self.magnitude()
        }
    }

    /// The order of values: nothing is less than a NaN, and a NaN is less than
    /// nothing.
    pub open spec fn less(self, other: F64Bits) -> bool {
        !self.is_nan() && !other.is_nan() && self.rank() < other.rank()
    }

    fn parts(&self) -> (r: (bool, u64))
        ensures
            r.0 == (self.0 >= 0x8000_0000_0000_0000),
            r.1 == self.magnitude(),
    {
        if self.0 >= 0x8000_0000_0000_0000 {
            (true, self.0 - 0x8000_0000_0000_0000)
        } else {
            (false, self.0)
        }
    }

    /// Whether this value is less than the other.
    pub fn less_than(&self, other: &F64Bits) -> (r: bool)
        ensures
            r == self.less(*other),
    {
        let (sa, ma) = self.parts();
        let (sb, mb) = other.parts();
        if ma > F64_INFINITY || mb > F64_INFINITY {
            return false;
        }
        if sa {
            if sb {
                ma > mb
            } else {
                ma > 0 || mb > 0
            }
        } else {
            !sb && ma < mb
        }
    }
}

/// On numbers the order is strict and any two are comparable up to equal rank.
pub proof fn f32_order_is_total(a: F32Bits, b: F32Bits, c: F32Bits)
    requires
        !a.is_nan(),
        !b.is_nan(),
        !c.is_nan(),
    ensures
        !a.less(a),
        a.less(b) && b.less(c) ==> a.less(c),
        a.less(b) || b.less(a) || a.rank() == b.rank(),
{
}

/// Positive numbers are ordered as their bits are, flipping the sign turns the
/// order round, negative numbers lie below positive ones, and the two zeros are
/// equal. What lies above infinity is no number and has no place in the order.
pub proof fn f32_order_is_that_of_the_bits(a: u32, b: u32, r: bool, flipped: bool, mixed: bool)
    requires
        a < 0x8000_0000,
        b < 0x8000_0000,
        call_ensures(F32Bits::less_than, (&F32Bits(a), &F32Bits(b)), r),
        call_ensures(
            F32Bits::less_than,
            (&F32Bits((b + 0x8000_0000) as u32), &F32Bits((a + 0x8000_0000) as u32)),
            flipped,
        ),
        call_ensures(
            F32Bits::less_than,
            (&F32Bits((a + 0x8000_0000) as u32), &F32Bits(b)),
            mixed,
        ),
    ensures
        r <==> a < b <= 0x7f80_0000,
        flipped == r,
        mixed <==> a <= 0x7f80_0000 && b <= 0x7f80_0000 && (a > 0 || b > 0),
{
}

/// Doubles are ordered in the same way.
pub proof fn f64_order_is_that_of_the_bits(a: u64, b: u64, r: bool, flipped: bool, mixed: bool)
    requires
        a < 0x8000_0000_0000_0000,
        b < 0x8000_0000_0000_0000,
        call_ensures(F64Bits::less_than, (&F64Bits(a), &F64Bits(b)), r),
        call_ensures(
            F64Bits::less_than,
            (
                &F64Bits((b + 0x8000_0000_0000_0000) as u64),
                &F64Bits((a + 0x8000_0000_0000_0000) as u64),
            ),
            flipped,
        ),
        call_ensures(
            F64Bits::less_than,
            (&F64Bits((a + 0x8000_0000_0000_0000) as u64), &F64Bits(b)),
            mixed,
        ),
    ensures
        r <==> a < b <= 0x7ff0_0000_0000_0000,
        flipped == r,
        mixed <==> a <= 0x7ff0_0000_0000_0000 && b <= 0x7ff0_0000_0000_0000 && (a > 0 || b > 0),
{
}

/// A value is zero exactly where no bit but the sign is set.
pub proof fn zero_has_no_bits_but_its_sign(x: u32, r: bool)
    requires
        call_ensures(F32Bits::zero, (&F32Bits(x),), r),
    ensures
        r <==> x == 0 || x == 0x8000_0000,
{
}

} // verus!
