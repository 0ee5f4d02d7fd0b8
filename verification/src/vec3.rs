use crate::identity::{One, Zero};
use crate::reals::Real;
use crate::vec::element::Element;
use crate::vec::lanes::{LaneCount, Lanes};
use crate::vec::ops::{self, is_map2, map2_ok, map2_v, Operation};
use crate::vec::reduce::{chunked_fold_fits, fold_fits, reduce_vals, Reduction};
use crate::vec::{dot_fits, dot_v, Vec};
use vstd::prelude::*;

verus! {

broadcast use crate::vec::lemma_vec_len;

/// Specialization of `Vec<T, 3>` with named coordinates.
#[derive(Clone, Copy)]
#[verifier::ext_equal]
pub struct Vec3<T> {
    /// The `x` coordinate.
    pub x: T,
    /// The `y` coordinate.
    pub y: T,
    /// The `z` coordinate.
    pub z: T,
}

impl<T> View for Vec3<T> {
    type V = Seq<T>;

    open spec fn view(&self) -> Seq<T> {
        seq![self.x, self.y, self.z]
    }
}

impl<T> Vec3<T> {
    /// Create a new `Vec3<T>` from x, and y coordinates, setting z to
    /// zero.
    pub fn from_xy(x: T, y: T) -> (r: Vec3<T>)
        where
            T: Zero,
        ensures
            r.x == x,
            r.y == y,
            r.z == T::zero_spec(),
    {
        Vec3 { x, y, z: T::zero() }
    }

    /// Create a new `Vec3<T>` from x, y, and z coordinates.
    pub fn from_xyz(x: T, y: T, z: T) -> (r: Vec3<T>)
        ensures
            r.x == x,
            r.y == y,
            r.z == z,
    {
        Vec3 { x, y, z }
    }

    /// Create a new `Vec3<T>` from x, y, z, and w coordinates, discarding
    /// w.
    pub fn from_xyzw(x: T, y: T, z: T, w: T) -> (r: Vec3<T>)
        ensures
            r.x == x,
            r.y == y,
            r.z == z,
    {
        let _w = w;
        Vec3 { x, y, z }
    }

    /// Converts an array to a vector.
    pub fn from_array(array: [T; 3]) -> (r: Vec3<T>)
        where
            T: Copy,
        ensures
            r@ == array@,
    {
        let r = Vec3 { x: array[0], y: array[1], z: array[2] };
        proof {
            assert(r@ =~= array@);
        }
        r
    }

    /// Converts this vector to an array.
    pub fn to_array(self) -> (r: [T; 3])
        where
            T: Copy,
        ensures
            r@ == self@,
    {
        let r = [self.x, self.y, self.z];
        proof {
            assert(r@ =~= self@);
        }
        r
    }

    /// The number of elements.
    pub fn len(&self) -> (r: usize)
        ensures
            r == 3,
    {
        3
    }

    /// Never true: the vector always holds 3 elements.
    pub fn is_empty(&self) -> (r: bool)
        ensures
            r == false,
    {
        false
    }

    /// Creates a new vector with all elements set to the given value.
    pub fn splat(value: T) -> (r: Vec3<T>)
        where
            T: Copy,
        ensures
            forall|i: int| 0 <= i < 3 ==> r@[i] == value,
    {
        Vec3 { x: value, y: value, z: value }
    }

    /// Creates a new vector with all elements set to zero.
    pub fn zero() -> (r: Vec3<T>)
        where
            T: Copy + Zero,
        ensures
            forall|i: int| 0 <= i < 3 ==> r@[i] == T::zero_spec(),
    {
        Self::splat(T::zero())
    }

    /// Creates a new vector with all elements set to one.
    pub fn one() -> (r: Vec3<T>)
        where
            T: Copy + One,
        ensures
            forall|i: int| 0 <= i < 3 ==> r@[i] == T::one_spec(),
    {
        Self::splat(T::one())
    }

    /// Converts the general vector of length 3 to this specialization.
    pub fn from_vec(vec: Vec<T, 3>) -> (r: Vec3<T>)
        where
            T: Copy,
        ensures
            r@ == vec@,
    {
        let r = Vec3 { x: vec.index(0), y: vec.index(1), z: vec.index(2) };
        proof {
            assert(r@ =~= vec@);
        }
        r
    }

    /// Converts this vector to the general vector of length 3.
    pub fn to_vec(self) -> (r: Vec<T, 3>)
        where
            T: Copy,
        ensures
            r@ == self@,
    {
        Vec::from_array(self.to_array())
    }
}

impl<T: Element> Vec3<T> where Lanes<T, 3>: LaneCount {
    /// The distance: the magnitude of the elementwise difference.
    pub fn distance(self, other: Vec3<T>) -> (r: T)
        where
            T: Real,
        requires
            map2_ok(Operation::Sub, self@, other@),
            dot_fits(
                map2_v(Operation::Sub, ops::vals(self@), ops::vals(other@)),
                map2_v(Operation::Sub, ops::vals(self@), ops::vals(other@)),
                <Lanes<T, 3> as LaneCount>::lanes_spec(),
                T::min_v(),
                T::max_v(),
            ),
        ensures
            r == T::from_v(
                dot_v(
                    map2_v(Operation::Sub, ops::vals(self@), ops::vals(other@)),
                    map2_v(Operation::Sub, ops::vals(self@), ops::vals(other@)),
                ),
            ).sqrt_spec(),
    {
        self.to_vec().distance(other.to_vec())
    }

    /// The squared distance: the squared magnitude of the elementwise
    /// difference.
    pub fn distance_squared(self, other: Vec3<T>) -> (r: T)
        requires
            map2_ok(Operation::Sub, self@, other@),
            dot_fits(
                map2_v(Operation::Sub, ops::vals(self@), ops::vals(other@)),
                map2_v(Operation::Sub, ops::vals(self@), ops::vals(other@)),
                <Lanes<T, 3> as LaneCount>::lanes_spec(),
                T::min_v(),
                T::max_v(),
            ),
        ensures
            r.v() == dot_v(
                map2_v(Operation::Sub, ops::vals(self@), ops::vals(other@)),
                map2_v(Operation::Sub, ops::vals(self@), ops::vals(other@)),
            ),
    {
        self.to_vec().distance_squared(other.to_vec())
    }

    /// The dot product: elementwise multiplication, then the ordered sum.
    pub fn dot(self, other: Vec3<T>) -> (r: T)
        requires
            dot_fits(
                ops::vals(self@),
                ops::vals(other@),
                <Lanes<T, 3> as LaneCount>::lanes_spec(),
                T::min_v(),
                T::max_v(),
            ),
        ensures
            r.v() == dot_v(ops::vals(self@), ops::vals(other@)),
    {
        self.to_vec().dot(other.to_vec())
    }

    /// The magnitude: the square root, as the real-number collaborator
    /// computes it, of the squared magnitude.
    pub fn magnitude(self) -> (r: T)
        where
            T: Real,
        requires
            dot_fits(
                ops::vals(self@),
                ops::vals(self@),
                <Lanes<T, 3> as LaneCount>::lanes_spec(),
                T::min_v(),
                T::max_v(),
            ),
        ensures
            r == T::from_v(dot_v(ops::vals(self@), ops::vals(self@))).sqrt_spec(),
    {
        self.to_vec().magnitude()
    }

    /// The dot product of the vector with itself.
    pub fn magnitude_squared(self) -> (r: T)
        requires
            dot_fits(
                ops::vals(self@),
                ops::vals(self@),
                <Lanes<T, 3> as LaneCount>::lanes_spec(),
                T::min_v(),
                T::max_v(),
            ),
        ensures
            r.v() == dot_v(ops::vals(self@), ops::vals(self@)),
    {
        self.to_vec().magnitude_squared()
    }

    /// The ordered product of all elements, seeded with one.
    pub fn product(self) -> (r: T)
        requires
            fold_fits(Reduction::Product, ops::vals(self@), T::min_v(), T::max_v()),
            chunked_fold_fits(
                Reduction::Product,
                ops::vals(self@),
                <Lanes<T, 3> as LaneCount>::lanes_spec(),
                T::min_v(),
                T::max_v(),
            ),
        ensures
            r.v() == reduce_vals(Reduction::Product, ops::vals(self@)),
    {
        self.to_vec().product()
    }

    /// The ordered sum of all elements, seeded with zero.
    pub fn sum(self) -> (r: T)
        requires
            fold_fits(Reduction::Sum, ops::vals(self@), T::min_v(), T::max_v()),
            chunked_fold_fits(
                Reduction::Sum,
                ops::vals(self@),
                <Lanes<T, 3> as LaneCount>::lanes_spec(),
                T::min_v(),
                T::max_v(),
            ),
        ensures
            r.v() == reduce_vals(Reduction::Sum, ops::vals(self@)),
    {
        self.to_vec().sum()
    }

    /// Scales every element from radians to degrees with the collaborator's
    /// degrees-per-radian factor.
    pub fn to_degrees(self) -> (r: Vec3<T>)
        where
            T: Real,
        requires
            forall|i: int|
                0 <= i < 3 ==> ops::op_ok_v(
                    Operation::Mul,
                    (#[trigger] self@[i]).v(),
                    T::deg_per_rad_spec().v(),
                    T::min_v(),
                    T::max_v(),
                ),
        ensures
            forall|i: int|
                0 <= i < 3 ==> (#[trigger] r@[i]).v() == self@[i].v()
                    * T::deg_per_rad_spec().v(),
    {
        Self::from_vec(self.to_vec().to_degrees())
    }

    /// Scales every element from degrees to radians with the collaborator's
    /// radians-per-degree factor.
    pub fn to_radians(self) -> (r: Vec3<T>)
        where
            T: Real,
        requires
            forall|i: int|
                0 <= i < 3 ==> ops::op_ok_v(
                    Operation::Mul,
                    (#[trigger] self@[i]).v(),
                    T::rad_per_deg_spec().v(),
                    T::min_v(),
                    T::max_v(),
                ),
        ensures
            forall|i: int|
                0 <= i < 3 ==> (#[trigger] r@[i]).v() == self@[i].v()
                    * T::rad_per_deg_spec().v(),
    {
        Self::from_vec(self.to_vec().to_radians())
    }

    /// Elementwise native addition.
    pub fn add(self, other: Vec3<T>) -> (r: Vec3<T>)
        requires
            map2_ok(Operation::Add, self@, other@),
        ensures
            is_map2(Operation::Add, r@, self@, other@),
    {
        Self::from_vec(ops::apply(Operation::Add, self.to_vec(), other.to_vec()))
    }

    /// Elementwise native addition, in place.
    pub fn add_assign(&mut self, other: Vec3<T>)
        requires
            map2_ok(Operation::Add, old(self)@, other@),
        ensures
            is_map2(Operation::Add, final(self)@, old(self)@, other@),
    {
        *self = self.add(other);
    }

    /// Elementwise native division.
    pub fn div(self, other: Vec3<T>) -> (r: Vec3<T>)
        requires
            map2_ok(Operation::Div, self@, other@),
        ensures
            is_map2(Operation::Div, r@, self@, other@),
    {
        Self::from_vec(ops::apply(Operation::Div, self.to_vec(), other.to_vec()))
    }

    /// Elementwise native division, in place.
    pub fn div_assign(&mut self, other: Vec3<T>)
        requires
            map2_ok(Operation::Div, old(self)@, other@),
        ensures
            is_map2(Operation::Div, final(self)@, old(self)@, other@),
    {
        *self = self.div(other);
    }

    /// Elementwise native multiplication.
    pub fn mul(self, other: Vec3<T>) -> (r: Vec3<T>)
        requires
            map2_ok(Operation::Mul, self@, other@),
        ensures
            is_map2(Operation::Mul, r@, self@, other@),
    {
        Self::from_vec(ops::apply(Operation::Mul, self.to_vec(), other.to_vec()))
    }

    /// Elementwise native multiplication, in place.
    pub fn mul_assign(&mut self, other: Vec3<T>)
        requires
            map2_ok(Operation::Mul, old(self)@, other@),
        ensures
            is_map2(Operation::Mul, final(self)@, old(self)@, other@),
    {
        *self = self.mul(other);
    }

    /// Elementwise native remainder.
    pub fn rem(self, other: Vec3<T>) -> (r: Vec3<T>)
        requires
            map2_ok(Operation::Rem, self@, other@),
        ensures
            is_map2(Operation::Rem, r@, self@, other@),
    {
        Self::from_vec(ops::apply(Operation::Rem, self.to_vec(), other.to_vec()))
    }

    /// Elementwise native remainder, in place.
    pub fn rem_assign(&mut self, other: Vec3<T>)
        requires
            map2_ok(Operation::Rem, old(self)@, other@),
        ensures
            is_map2(Operation::Rem, final(self)@, old(self)@, other@),
    {
        *self = self.rem(other);
    }

    /// Elementwise native subtraction.
    pub fn sub(self, other: Vec3<T>) -> (r: Vec3<T>)
        requires
            map2_ok(Operation::Sub, self@, other@),
        ensures
            is_map2(Operation::Sub, r@, self@, other@),
    {
        Self::from_vec(ops::apply(Operation::Sub, self.to_vec(), other.to_vec()))
    }

    /// Elementwise native subtraction, in place.
    pub fn sub_assign(&mut self, other: Vec3<T>)
        requires
            map2_ok(Operation::Sub, old(self)@, other@),
        ensures
            is_map2(Operation::Sub, final(self)@, old(self)@, other@),
    {
        *self = self.sub(other);
    }

}

/// A vector is exactly its elements: two vectors with equal views are
/// equal.
pub proof fn lemma_view_determines<T>(a: Vec3<T>, b: Vec3<T>)
    requires
        a@ == b@,
    ensures
        a == b,
{
    assert(a =~= b);
}

/// Round trip: rebuilding a vector from the array it converts to yields
/// the original vector, for every vector.
pub proof fn lemma_array_round_trip<T>(v: Vec3<T>, a: [T; 3], r: Vec3<T>)
    requires
        a@ == v@,
        r@ == a@,
    ensures
        r == v,
{
    lemma_view_determines(r, v);
}

} // verus!