//! The generic fixed-length vector and its arithmetic core.

pub mod element;
pub mod iter;
pub mod iter_mut;
pub mod lanes;
pub mod ops;
pub mod reduce;

pub mod add;
pub mod product;
pub mod rem;
pub mod sum;

pub use element::{Element, Sealed};
pub use iter::Iter;
pub use iter_mut::IterMut;
pub use lanes::{nearest_lane, LaneCount, Lanes};

use crate::identity::{One, Zero};
use ops::{is_map2, map2_ok, map2_ok_v, map2_v, Operation};
use reduce::{chunked_fold_fits, fold_fits, reduce_vals, Reduction};
use vstd::prelude::*;

verus! {

broadcast use vstd::array::group_array_axioms;

/// Generic arbitrary length vector.
///
/// The vector owns exactly `N` contiguous elements; element order is
/// significant and preserved by every operation.  Values are plain data:
/// they are created by explicit construction, copied freely, and destroyed
/// by scope exit.
#[derive(Clone, Copy)]
#[verifier::ext_equal]
pub struct Vec<T, const N: usize> {
    array: [T; N],
}

impl<T, const N: usize> View for Vec<T, N> {
    type V = Seq<T>;

    closed spec fn view(&self) -> Seq<T> {
        self.array@
    }
}

/// Copies the first `N` elements of a slice holding at least `N`.
///
/// Relies on std's `TryFrom<&[T]>` implementation for `[T; N]`, which
/// succeeds exactly when the source slice has length `N`.
#[verifier::external_body]
fn head_array<T: Copy, const N: usize>(slice: &[T]) -> (r: [T; N])
    requires
        slice@.len() >= N,
    ensures
        r@ == slice@.subrange(0, N as int),
{
    <[T; N]>::try_from(&slice[..N]).unwrap()
}

impl<T, const N: usize> Vec<T, N> {
    /// Converts an array to a vector.
    pub fn from_array(array: [T; N]) -> (r: Vec<T, N>)
        ensures
            r@ == array@,
    {
        Vec { array }
    }

    /// Converts this vector back to an array.
    pub fn to_array(self) -> (r: [T; N])
        ensures
            r@ == self@,
    {
        self.array
    }

    /// Create a new vector from the first `N` elements of a slice.
    ///
    /// The slice must hold at least `N` elements; a shorter slice is a
    /// length-precondition error of the caller.
    pub fn from_slice(slice: &[T]) -> (r: Vec<T, N>)
        where
            T: Copy,
        requires
            slice@.len() >= N,
        ensures
            r@ == slice@.subrange(0, N as int),
    {
        Vec { array: head_array(slice) }
    }

    /// The number of elements, fixed at the type level.
    pub fn len(&self) -> (r: usize)
        ensures
            r == N,
            r == self@.len(),
    {
        N
    }

    /// True exactly for the empty vector.
    pub fn is_empty(&self) -> (r: bool)
        ensures
            r == (N == 0),
    {
        N == 0
    }

    /// Creates a new vector with all elements set to the given value.
    pub fn splat(value: T) -> (r: Vec<T, N>)
        where
            T: Copy,
        ensures
            r@.len() == N,
            forall|i: int| 0 <= i < N ==> r@[i] == value,
    {
        Vec { array: [value; N] }
    }

    /// Creates a new vector with all elements set to zero.
    pub fn zero() -> (r: Vec<T, N>)
        where
            T: Copy + Zero,
        ensures
            r@.len() == N,
            forall|i: int| 0 <= i < N ==> r@[i] == T::zero_spec(),
    {
        Self::splat(T::zero())
    }

    /// Creates a new vector with all elements set to one.
    pub fn one() -> (r: Vec<T, N>)
        where
            T: Copy + One,
        ensures
            r@.len() == N,
            forall|i: int| 0 <= i < N ==> r@[i] == T::one_spec(),
    {
        Self::splat(T::one())
    }

    /// The element at `index`; the bound on the index is a verified
    /// precondition of the caller, so no check is repeated at runtime.
    pub fn index(&self, index: usize) -> (r: T)
        where
            T: Copy,
        requires
            index < N,
        ensures
            r == self@[index as int],
    {
        self.array[index]
    }

    /// The element at `index`, or `None` past the end.
    pub fn get(&self, index: usize) -> (r: Option<&T>)
        ensures
            index < N ==> r == Some(&self@[index as int]),
            index >= N ==> r is None,
    {
        if index < N {
            Some(&self.array[index])
        } else {
            None
        }
    }

    /// A forward/backward cursor over the elements.
    pub fn iter(&self) -> (r: Iter<'_, T, N>)
        requires
            N <= isize::MAX,
        ensures
            r.items() == self@,
            r.pos() == 0,
            r.back() == N as int,
    {
        Iter::new(self)
    }

    /// A forward/backward cursor handing out mutable borrows of the
    /// elements.
    pub fn iter_mut(&mut self) -> (r: IterMut<'_, T, N>)
        requires
            N <= isize::MAX,
        ensures
            r.items() == old(self)@,
            r.pos() == 0,
            r.back() == N as int,
    {
        IterMut::new(self)
    }

    /// A mutable borrow of the element at `index`, or `None` past the end.
    pub fn get_mut(&mut self, index: usize) -> (r: Option<&mut T>)
        ensures
            index < N ==> (r matches Some(x) && *x == old(self)@[index as int] && final(self)@
                == old(self)@.update(index as int, *final(x))),
            index >= N ==> (r is None && final(self)@ == old(self)@),
    {
        if index < N {
            Some(&mut self.array[index])
        } else {
            None
        }
    }

    /// Replaces the element at `index`.
    pub fn set(&mut self, index: usize, value: T)
        requires
            index < N,
        ensures
            final(self)@ == old(self)@.update(index as int, value),
    {
        self.array[index] = value;
    }
}

/// The exact mathematical dot product of two value sequences: the ordered
/// sum of the elementwise products.
pub open spec fn dot_v(qa: Seq<int>, qb: Seq<int>) -> int {
    reduce_vals(Reduction::Sum, map2_v(Operation::Mul, qa, qb))
}

/// The dot product of two value sequences bounded by `lo` and `hi` incurs
/// no overflow: not in any elementwise product, and not in any partial sum
/// of either reduction strategy at lane count `lanes`.
pub open spec fn dot_fits(qa: Seq<int>, qb: Seq<int>, lanes: int, lo: int, hi: int) -> bool {
    &&& map2_ok_v(Operation::Mul, qa, qb, lo, hi)
    &&& fold_fits(Reduction::Sum, map2_v(Operation::Mul, qa, qb), lo, hi)
    &&& chunked_fold_fits(Reduction::Sum, map2_v(Operation::Mul, qa, qb), lanes, lo, hi)
}

impl<T: Element, const N: usize> Vec<T, N> where lanes::Lanes<T, N>: LaneCount {
    /// Elementwise native addition.
    pub fn add(self, other: Vec<T, N>) -> (r: Vec<T, N>)
        requires
            map2_ok(Operation::Add, self@, other@),
        ensures
            is_map2(Operation::Add, r@, self@, other@),
    {
        ops::apply(Operation::Add, self, other)
    }

    /// Elementwise native subtraction.
    pub fn sub(self, other: Vec<T, N>) -> (r: Vec<T, N>)
        requires
            map2_ok(Operation::Sub, self@, other@),
        ensures
            is_map2(Operation::Sub, r@, self@, other@),
    {
        ops::apply(Operation::Sub, self, other)
    }

    /// Elementwise native multiplication.
    pub fn mul(self, other: Vec<T, N>) -> (r: Vec<T, N>)
        requires
            map2_ok(Operation::Mul, self@, other@),
        ensures
            is_map2(Operation::Mul, r@, self@, other@),
    {
        ops::apply(Operation::Mul, self, other)
    }

    /// Elementwise native division.
    pub fn div(self, other: Vec<T, N>) -> (r: Vec<T, N>)
        requires
            map2_ok(Operation::Div, self@, other@),
        ensures
            is_map2(Operation::Div, r@, self@, other@),
    {
        ops::apply(Operation::Div, self, other)
    }

    /// Elementwise native remainder.
    pub fn rem(self, other: Vec<T, N>) -> (r: Vec<T, N>)
        requires
            map2_ok(Operation::Rem, self@, other@),
        ensures
            is_map2(Operation::Rem, r@, self@, other@),
    {
        ops::apply(Operation::Rem, self, other)
    }

    /// Elementwise native addition, in place.
    pub fn add_assign(&mut self, other: Vec<T, N>)
        requires
            map2_ok(Operation::Add, old(self)@, other@),
        ensures
            is_map2(Operation::Add, final(self)@, old(self)@, other@),
    {
        *self = ops::apply(Operation::Add, *self, other);
    }

    /// Elementwise native subtraction, in place.
    pub fn sub_assign(&mut self, other: Vec<T, N>)
        requires
            map2_ok(Operation::Sub, old(self)@, other@),
        ensures
            is_map2(Operation::Sub, final(self)@, old(self)@, other@),
    {
        *self = ops::apply(Operation::Sub, *self, other);
    }

    /// Elementwise native multiplication, in place.
    pub fn mul_assign(&mut self, other: Vec<T, N>)
        requires
            map2_ok(Operation::Mul, old(self)@, other@),
        ensures
            is_map2(Operation::Mul, final(self)@, old(self)@, other@),
    {
        *self = ops::apply(Operation::Mul, *self, other);
    }

    /// Elementwise native division, in place.
    pub fn div_assign(&mut self, other: Vec<T, N>)
        requires
            map2_ok(Operation::Div, old(self)@, other@),
        ensures
            is_map2(Operation::Div, final(self)@, old(self)@, other@),
    {
        *self = ops::apply(Operation::Div, *self, other);
    }

    /// Elementwise native remainder, in place.
    pub fn rem_assign(&mut self, other: Vec<T, N>)
        requires
            map2_ok(Operation::Rem, old(self)@, other@),
        ensures
            is_map2(Operation::Rem, final(self)@, old(self)@, other@),
    {
        *self = ops::apply(Operation::Rem, *self, other);
    }

    /// The ordered sum of all elements, seeded with zero.
    pub fn sum(self) -> (r: T)
        requires
            fold_fits(Reduction::Sum, ops::vals(self@), T::min_v(), T::max_v()),
            chunked_fold_fits(
                Reduction::Sum,
                ops::vals(self@),
                <lanes::Lanes<T, N> as LaneCount>::lanes_spec(),
                T::min_v(),
                T::max_v(),
            ),
        ensures
            r.v() == reduce_vals(Reduction::Sum, ops::vals(self@)),
    {
        sum::sum(self)
    }

    /// The ordered product of all elements, seeded with one.
    pub fn product(self) -> (r: T)
        requires
            fold_fits(Reduction::Product, ops::vals(self@), T::min_v(), T::max_v()),
            chunked_fold_fits(
                Reduction::Product,
                ops::vals(self@),
                <lanes::Lanes<T, N> as LaneCount>::lanes_spec(),
                T::min_v(),
                T::max_v(),
            ),
        ensures
            r.v() == reduce_vals(Reduction::Product, ops::vals(self@)),
    {
        product::product(self)
    }

    /// The dot product: elementwise multiplication, then the ordered sum.
    pub fn dot(self, other: Vec<T, N>) -> (r: T)
        requires
            dot_fits(
                ops::vals(self@),
                ops::vals(other@),
                <lanes::Lanes<T, N> as LaneCount>::lanes_spec(),
                T::min_v(),
                T::max_v(),
            ),
        ensures
            r.v() == dot_v(ops::vals(self@), ops::vals(other@)),
    {
        proof {
            ops::lemma_map2_ok_vals::<T>(Operation::Mul, self@, other@);
        }
        let p = ops::apply(Operation::Mul, self, other);
        proof {
            ops::lemma_map2_vals(Operation::Mul, p@, self@, other@);
        }
        sum::sum(p)
    }

    /// The dot product of the vector with itself.
    pub fn magnitude_squared(self) -> (r: T)
        requires
            dot_fits(
                ops::vals(self@),
                ops::vals(self@),
                <lanes::Lanes<T, N> as LaneCount>::lanes_spec(),
                T::min_v(),
                T::max_v(),
            ),
        ensures
            r.v() == dot_v(ops::vals(self@), ops::vals(self@)),
    {
        self.dot(self)
    }

    /// The squared distance: the squared magnitude of the elementwise
    /// difference.
    pub fn distance_squared(self, other: Vec<T, N>) -> (r: T)
        requires
            map2_ok(Operation::Sub, self@, other@),
            dot_fits(
                map2_v(Operation::Sub, ops::vals(self@), ops::vals(other@)),
                map2_v(Operation::Sub, ops::vals(self@), ops::vals(other@)),
                <lanes::Lanes<T, N> as LaneCount>::lanes_spec(),
                T::min_v(),
                T::max_v(),
            ),
        ensures
            r.v() == dot_v(
                map2_v(Operation::Sub, ops::vals(self@), ops::vals(other@)),
                map2_v(Operation::Sub, ops::vals(self@), ops::vals(other@)),
            ),
    {
        let d = ops::apply(Operation::Sub, self, other);
        proof {
            ops::lemma_map2_vals(Operation::Sub, d@, self@, other@);
        }
        d.magnitude_squared()
    }

    /// The magnitude: the square root, as the real-number collaborator
    /// computes it, of the squared magnitude.
    pub fn magnitude(self) -> (r: T)
        where
            T: crate::reals::Real,
        requires
            dot_fits(
                ops::vals(self@),
                ops::vals(self@),
                <lanes::Lanes<T, N> as LaneCount>::lanes_spec(),
                T::min_v(),
                T::max_v(),
            ),
        ensures
            r == T::from_v(dot_v(ops::vals(self@), ops::vals(self@))).sqrt_spec(),
    {
        let m = self.magnitude_squared();
        proof {
            m.v_in_range();
            T::from_v_v(m.v());
            m.v_injective(T::from_v(m.v()));
        }
        m.sqrt()
    }

    /// The distance: the magnitude of the elementwise difference.
    pub fn distance(self, other: Vec<T, N>) -> (r: T)
        where
            T: crate::reals::Real,
        requires
            map2_ok(Operation::Sub, self@, other@),
            dot_fits(
                map2_v(Operation::Sub, ops::vals(self@), ops::vals(other@)),
                map2_v(Operation::Sub, ops::vals(self@), ops::vals(other@)),
                <lanes::Lanes<T, N> as LaneCount>::lanes_spec(),
                T::min_v(),
                T::max_v(),
            ),
        ensures
            r == T::from_v(
                dot_v(
                    map2_v(Operation::Sub, ops::vals(self@), ops::vals(other@)),
                    map2_v(Operation::Sub, ops::vals(self@), ops::vals(other@)),
                ),
            ).sqrt_spec(),
    {
        let m = self.distance_squared(other);
        proof {
            m.v_in_range();
            T::from_v_v(m.v());
            m.v_injective(T::from_v(m.v()));
        }
        m.sqrt()
    }

    /// Scales every element from radians to degrees with the collaborator's
    /// degrees-per-radian factor.
    pub fn to_degrees(self) -> (r: Vec<T, N>)
        where
            T: crate::reals::Real,
        requires
            forall|i: int|
                0 <= i < N ==> ops::op_ok_v(
                    Operation::Mul,
                    (#[trigger] self@[i]).v(),
                    T::deg_per_rad_spec().v(),
                    T::min_v(),
                    T::max_v(),
                ),
        ensures
            r@.len() == N,
            forall|i: int|
                0 <= i < N ==> (#[trigger] r@[i]).v() == self@[i].v()
                    * T::deg_per_rad_spec().v(),
    {
        let f: T = crate::reals::Real::deg_per_rad();
        ops::apply(Operation::Mul, self, Vec::splat(f))
    }

    /// Scales every element from degrees to radians with the collaborator's
    /// radians-per-degree factor.
    pub fn to_radians(self) -> (r: Vec<T, N>)
        where
            T: crate::reals::Real,
        requires
            forall|i: int|
                0 <= i < N ==> ops::op_ok_v(
                    Operation::Mul,
                    (#[trigger] self@[i]).v(),
                    T::rad_per_deg_spec().v(),
                    T::min_v(),
                    T::max_v(),
                ),
        ensures
            r@.len() == N,
            forall|i: int|
                0 <= i < N ==> (#[trigger] r@[i]).v() == self@[i].v()
                    * T::rad_per_deg_spec().v(),
    {
        let f: T = crate::reals::Real::rad_per_deg();
        ops::apply(Operation::Mul, self, Vec::splat(f))
    }
}

/// The dot product of a vector with itself and the squared magnitude are
/// the same element: both hold the exact self dot product, and the value
/// of an element determines it.
pub proof fn lemma_dot_self_is_magnitude_squared<T: Element>(d: T, m: T, q: Seq<int>)
    requires
        d.v() == dot_v(q, q),
        m.v() == dot_v(q, q),
    ensures
        d == m,
{
    d.v_injective(m);
}

/// The view of a vector always holds exactly `N` elements.
pub broadcast proof fn lemma_vec_len<T, const N: usize>(v: Vec<T, N>)
    ensures
        (#[trigger] v@).len() == N,
{
}

/// A vector is exactly its elements: two vectors with equal views are equal.
pub proof fn lemma_view_determines<T, const N: usize>(a: Vec<T, N>, b: Vec<T, N>)
    requires
        a@ == b@,
    ensures
        a == b,
{
    assert(a.array =~= b.array);
    assert(a =~= b);
}

/// Round trip: rebuilding a vector from the array it converts to yields the
/// original vector, for every vector.
pub proof fn lemma_array_round_trip<T, const N: usize>(v: Vec<T, N>, a: [T; N], r: Vec<T, N>)
    requires
        a@ == v@,
        r@ == a@,
    ensures
        r == v,
{
    lemma_view_determines(r, v);
}

} // verus!
