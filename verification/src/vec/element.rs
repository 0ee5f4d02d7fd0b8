use crate::identity::{One, Zero};
use vstd::prelude::*;

verus! {

/// Quotient of `a / b` truncated toward zero, as Rust's native integer
/// division computes it (ghost `/` alone would round toward negative
/// infinity for a negative dividend).
pub open spec fn trunc_div(a: int, b: int) -> int {
    if a == 0 {
        0
    } else if a > 0 && b > 0 {
        a / b
    } else if a < 0 && b < 0 {
        (a * -1) / (b * -1)
    } else if a < 0 {
        ((a * -1) / b) * -1
    } else {
        (a / (b * -1)) * -1
    }
}

/// Remainder of `a / b` with the sign of the dividend, as Rust's native `%`
/// computes it.
pub open spec fn trunc_rem(a: int, b: int) -> int {
    if a == 0 {
        0
    } else if a > 0 && b > 0 {
        a % b
    } else if a < 0 && b < 0 {
        ((a * -1) % (b * -1)) * -1
    } else if a < 0 {
        ((a * -1) % b) * -1
    } else {
        a % (b * -1)
    }
}

/// For a nonnegative dividend and a positive divisor, truncating division
/// and remainder coincide with the Euclidean operators of ghost arithmetic.
proof fn lemma_trunc_nonneg(a: int, b: int)
    requires
        a >= 0,
        b > 0,
    ensures
        trunc_div(a, b) == a / b,
        trunc_rem(a, b) == a % b,
{
    if a == 0 {
        assert(0int / b == 0) by (nonlinear_arith)
            requires
                b > 0,
        ;
        assert(0int % b == 0) by (nonlinear_arith)
            requires
                b > 0,
        ;
    }
}

/// Closes [`Element`]: the eligible scalars are exactly the fixed-width
/// integer types listed in this file.
pub trait Sealed: Copy + Sized {

}

/// A scalar eligible as a vector element.
///
/// The trait gives every element a mathematical value [`Element::v`] and
/// ties the native arithmetic of the type to exact integer arithmetic on
/// that value, so that vector contracts can be stated over plain integers.
/// Each operation requires exactly the inputs on which the native scalar
/// operation neither overflows nor divides by zero; on those inputs the
/// native semantics of the type are followed unchanged.
pub trait Element: Sealed + Zero + One {
    /// The mathematical value of this scalar.
    spec fn v(self) -> int;

    /// The smallest value of the type.
    spec fn min_v() -> int;

    /// The largest value of the type.
    spec fn max_v() -> int;

    /// The byte size of one element.
    spec fn size_spec() -> int;

    /// The byte size of one element, used to deduce the lane count.
    fn byte_size() -> (n: usize)
        ensures
            n as int == Self::size_spec(),
    ;

    /// Every value of the type lies between the bounds.
    proof fn v_in_range(self)
        ensures
            Self::min_v() <= self.v() <= Self::max_v(),
    ;

    /// The scalar holding a representable mathematical value.
    spec fn from_v(x: int) -> Self;

    /// `from_v` returns the scalar it was asked for.
    proof fn from_v_v(x: int)
        requires
            Self::min_v() <= x <= Self::max_v(),
        ensures
            Self::from_v(x).v() == x,
    ;

    /// The mathematical value determines the scalar.
    proof fn v_injective(self, other: Self)
        requires
            self.v() == other.v(),
        ensures
            self == other,
    ;

    /// The identities hold the mathematical values 0 and 1, and the type can
    /// represent both.
    proof fn identity_v()
        ensures
            Self::zero_spec().v() == 0,
            Self::one_spec().v() == 1,
            Self::min_v() <= 0,
            1 <= Self::max_v(),
            1 <= Self::size_spec(),
    ;

    /// Native addition; panics exactly when the sum leaves the type.
    fn add_elem(self, o: Self) -> (r: Self)
        requires
            Self::min_v() <= self.v() + o.v() <= Self::max_v(),
        ensures
            r.v() == self.v() + o.v(),
    ;

    /// Native subtraction; panics exactly when the difference leaves the type.
    fn sub_elem(self, o: Self) -> (r: Self)
        requires
            Self::min_v() <= self.v() - o.v() <= Self::max_v(),
        ensures
            r.v() == self.v() - o.v(),
    ;

    /// Native multiplication; panics exactly when the product leaves the type.
    fn mul_elem(self, o: Self) -> (r: Self)
        requires
            Self::min_v() <= self.v() * o.v() <= Self::max_v(),
        ensures
            r.v() == self.v() * o.v(),
    ;

    /// Native division; panics exactly on a zero divisor or an overflowing
    /// quotient.
    fn div_elem(self, o: Self) -> (r: Self)
        requires
            o.v() != 0,
            Self::min_v() <= trunc_div(self.v(), o.v()) <= Self::max_v(),
        ensures
            r.v() == trunc_div(self.v(), o.v()),
    ;

    /// Native remainder; panics exactly on a zero divisor or on the one
    /// overflowing dividend/divisor pair of a signed type.
    fn rem_elem(self, o: Self) -> (r: Self)
        requires
            o.v() != 0,
            !(self.v() == Self::min_v() && o.v() == -1),
        ensures
            r.v() == trunc_rem(self.v(), o.v()),
    ;
}

impl Sealed for i8 {

}

impl Element for i8 {
    open spec fn v(self) -> int {
        self as int
    }

    open spec fn min_v() -> int {
        i8::MIN as int
    }

    open spec fn max_v() -> int {
        i8::MAX as int
    }

    open spec fn size_spec() -> int {
        1
    }

    fn byte_size() -> usize {
        1
    }

    open spec fn from_v(x: int) -> i8 {
        x as i8
    }

    proof fn from_v_v(x: int) {
    }

    proof fn v_in_range(self) {
    }

    proof fn v_injective(self, other: Self) {
    }

    proof fn identity_v() {
    }

    fn add_elem(self, o: Self) -> Self {
        self + o
    }

    fn sub_elem(self, o: Self) -> Self {
        self - o
    }

    fn mul_elem(self, o: Self) -> Self {
        self * o
    }

    fn div_elem(self, o: Self) -> Self {
        match self.checked_div(o) {
            Some(r) => r,
            None => vstd::pervasive::unreached(),
        }
    }

    fn rem_elem(self, o: Self) -> Self {
        match self.checked_rem(o) {
            Some(r) => r,
            None => vstd::pervasive::unreached(),
        }
    }
}

impl Sealed for i16 {

}

impl Element for i16 {
    open spec fn v(self) -> int {
        self as int
    }

    open spec fn min_v() -> int {
        i16::MIN as int
    }

    open spec fn max_v() -> int {
        i16::MAX as int
    }

    open spec fn size_spec() -> int {
        2
    }

    fn byte_size() -> usize {
        2
    }

    open spec fn from_v(x: int) -> i16 {
        x as i16
    }

    proof fn from_v_v(x: int) {
    }

    proof fn v_in_range(self) {
    }

    proof fn v_injective(self, other: Self) {
    }

    proof fn identity_v() {
    }

    fn add_elem(self, o: Self) -> Self {
        self + o
    }

    fn sub_elem(self, o: Self) -> Self {
        self - o
    }

    fn mul_elem(self, o: Self) -> Self {
        self * o
    }

    fn div_elem(self, o: Self) -> Self {
        match self.checked_div(o) {
            Some(r) => r,
            None => vstd::pervasive::unreached(),
        }
    }

    fn rem_elem(self, o: Self) -> Self {
        match self.checked_rem(o) {
            Some(r) => r,
            None => vstd::pervasive::unreached(),
        }
    }
}

impl Sealed for i32 {

}

impl Element for i32 {
    open spec fn v(self) -> int {
        self as int
    }

    open spec fn min_v() -> int {
        i32::MIN as int
    }

    open spec fn max_v() -> int {
        i32::MAX as int
    }

    open spec fn size_spec() -> int {
        4
    }

    fn byte_size() -> usize {
        4
    }

    open spec fn from_v(x: int) -> i32 {
        x as i32
    }

    proof fn from_v_v(x: int) {
    }

    proof fn v_in_range(self) {
    }

    proof fn v_injective(self, other: Self) {
    }

    proof fn identity_v() {
    }

    fn add_elem(self, o: Self) -> Self {
        self + o
    }

    fn sub_elem(self, o: Self) -> Self {
        self - o
    }

    fn mul_elem(self, o: Self) -> Self {
        self * o
    }

    fn div_elem(self, o: Self) -> Self {
        match self.checked_div(o) {
            Some(r) => r,
            None => vstd::pervasive::unreached(),
        }
    }

    fn rem_elem(self, o: Self) -> Self {
        match self.checked_rem(o) {
            Some(r) => r,
            None => vstd::pervasive::unreached(),
        }
    }
}

impl Sealed for i64 {

}

impl Element for i64 {
    open spec fn v(self) -> int {
        self as int
    }

    open spec fn min_v() -> int {
        i64::MIN as int
    }

    open spec fn max_v() -> int {
        i64::MAX as int
    }

    open spec fn size_spec() -> int {
        8
    }

    fn byte_size() -> usize {
        8
    }

    open spec fn from_v(x: int) -> i64 {
        x as i64
    }

    proof fn from_v_v(x: int) {
    }

    proof fn v_in_range(self) {
    }

    proof fn v_injective(self, other: Self) {
    }

    proof fn identity_v() {
    }

    fn add_elem(self, o: Self) -> Self {
        self + o
    }

    fn sub_elem(self, o: Self) -> Self {
        self - o
    }

    fn mul_elem(self, o: Self) -> Self {
        self * o
    }

    fn div_elem(self, o: Self) -> Self {
        match self.checked_div(o) {
            Some(r) => r,
            None => vstd::pervasive::unreached(),
        }
    }

    fn rem_elem(self, o: Self) -> Self {
        match self.checked_rem(o) {
            Some(r) => r,
            None => vstd::pervasive::unreached(),
        }
    }
}

impl Sealed for isize {

}

impl Element for isize {
    open spec fn v(self) -> int {
        self as int
    }

    open spec fn min_v() -> int {
        isize::MIN as int
    }

    open spec fn max_v() -> int {
        isize::MAX as int
    }

    open spec fn size_spec() -> int {
        usize::BITS as int / 8
    }

    fn byte_size() -> usize {
        (usize::BITS / 8) as usize
    }

    open spec fn from_v(x: int) -> isize {
        x as isize
    }

    proof fn from_v_v(x: int) {
    }

    proof fn v_in_range(self) {
    }

    proof fn v_injective(self, other: Self) {
    }

    proof fn identity_v() {
    }

    fn add_elem(self, o: Self) -> Self {
        self + o
    }

    fn sub_elem(self, o: Self) -> Self {
        self - o
    }

    fn mul_elem(self, o: Self) -> Self {
        self * o
    }

    fn div_elem(self, o: Self) -> Self {
        match self.checked_div(o) {
            Some(r) => r,
            None => vstd::pervasive::unreached(),
        }
    }

    fn rem_elem(self, o: Self) -> Self {
        match self.checked_rem(o) {
            Some(r) => r,
            None => vstd::pervasive::unreached(),
        }
    }
}

impl Sealed for u8 {

}

impl Element for u8 {
    open spec fn v(self) -> int {
        self as int
    }

    open spec fn min_v() -> int {
        0
    }

    open spec fn max_v() -> int {
        u8::MAX as int
    }

    open spec fn size_spec() -> int {
        1
    }

    fn byte_size() -> usize {
        1
    }

    open spec fn from_v(x: int) -> u8 {
        x as u8
    }

    proof fn from_v_v(x: int) {
    }

    proof fn v_in_range(self) {
    }

    proof fn v_injective(self, other: Self) {
    }

    proof fn identity_v() {
    }

    fn add_elem(self, o: Self) -> Self {
        self + o
    }

    fn sub_elem(self, o: Self) -> Self {
        self - o
    }

    fn mul_elem(self, o: Self) -> Self {
        self * o
    }

    fn div_elem(self, o: Self) -> Self {
        proof {
            lemma_trunc_nonneg(self as int, o as int);
        }
        self / o
    }

    fn rem_elem(self, o: Self) -> Self {
        proof {
            lemma_trunc_nonneg(self as int, o as int);
        }
        self % o
    }
}

impl Sealed for u16 {

}

impl Element for u16 {
    open spec fn v(self) -> int {
        self as int
    }

    open spec fn min_v() -> int {
        0
    }

    open spec fn max_v() -> int {
        u16::MAX as int
    }

    open spec fn size_spec() -> int {
        2
    }

    fn byte_size() -> usize {
        2
    }

    open spec fn from_v(x: int) -> u16 {
        x as u16
    }

    proof fn from_v_v(x: int) {
    }

    proof fn v_in_range(self) {
    }

    proof fn v_injective(self, other: Self) {
    }

    proof fn identity_v() {
    }

    fn add_elem(self, o: Self) -> Self {
        self + o
    }

    fn sub_elem(self, o: Self) -> Self {
        self - o
    }

    fn mul_elem(self, o: Self) -> Self {
        self * o
    }

    fn div_elem(self, o: Self) -> Self {
        proof {
            lemma_trunc_nonneg(self as int, o as int);
        }
        self / o
    }

    fn rem_elem(self, o: Self) -> Self {
        proof {
            lemma_trunc_nonneg(self as int, o as int);
        }
        self % o
    }
}

impl Sealed for u32 {

}

impl Element for u32 {
    open spec fn v(self) -> int {
        self as int
    }

    open spec fn min_v() -> int {
        0
    }

    open spec fn max_v() -> int {
        u32::MAX as int
    }

    open spec fn size_spec() -> int {
        4
    }

    fn byte_size() -> usize {
        4
    }

    open spec fn from_v(x: int) -> u32 {
        x as u32
    }

    proof fn from_v_v(x: int) {
    }

    proof fn v_in_range(self) {
    }

    proof fn v_injective(self, other: Self) {
    }

    proof fn identity_v() {
    }

    fn add_elem(self, o: Self) -> Self {
        self + o
    }

    fn sub_elem(self, o: Self) -> Self {
        self - o
    }

    fn mul_elem(self, o: Self) -> Self {
        self * o
    }

    fn div_elem(self, o: Self) -> Self {
        proof {
            lemma_trunc_nonneg(self as int, o as int);
        }
        self / o
    }

    fn rem_elem(self, o: Self) -> Self {
        proof {
            lemma_trunc_nonneg(self as int, o as int);
        }
        self % o
    }
}

impl Sealed for u64 {

}

impl Element for u64 {
    open spec fn v(self) -> int {
        self as int
    }

    open spec fn min_v() -> int {
        0
    }

    open spec fn max_v() -> int {
        u64::MAX as int
    }

    open spec fn size_spec() -> int {
        8
    }

    fn byte_size() -> usize {
        8
    }

    open spec fn from_v(x: int) -> u64 {
        x as u64
    }

    proof fn from_v_v(x: int) {
    }

    proof fn v_in_range(self) {
    }

    proof fn v_injective(self, other: Self) {
    }

    proof fn identity_v() {
    }

    fn add_elem(self, o: Self) -> Self {
        self + o
    }

    fn sub_elem(self, o: Self) -> Self {
        self - o
    }

    fn mul_elem(self, o: Self) -> Self {
        self * o
    }

    fn div_elem(self, o: Self) -> Self {
        proof {
            lemma_trunc_nonneg(self as int, o as int);
        }
        self / o
    }

    fn rem_elem(self, o: Self) -> Self {
        proof {
            lemma_trunc_nonneg(self as int, o as int);
        }
        self % o
    }
}

impl Sealed for usize {

}

impl Element for usize {
    open spec fn v(self) -> int {
        self as int
    }

    open spec fn min_v() -> int {
        0
    }

    open spec fn max_v() -> int {
        usize::MAX as int
    }

    open spec fn size_spec() -> int {
        usize::BITS as int / 8
    }

    fn byte_size() -> usize {
        (usize::BITS / 8) as usize
    }

    open spec fn from_v(x: int) -> usize {
        x as usize
    }

    proof fn from_v_v(x: int) {
    }

    proof fn v_in_range(self) {
    }

    proof fn v_injective(self, other: Self) {
    }

    proof fn identity_v() {
    }

    fn add_elem(self, o: Self) -> Self {
        self + o
    }

    fn sub_elem(self, o: Self) -> Self {
        self - o
    }

    fn mul_elem(self, o: Self) -> Self {
        self * o
    }

    fn div_elem(self, o: Self) -> Self {
        proof {
            lemma_trunc_nonneg(self as int, o as int);
        }
        self / o
    }

    fn rem_elem(self, o: Self) -> Self {
        proof {
            lemma_trunc_nonneg(self as int, o as int);
        }
        self % o
    }
}

} // verus!
