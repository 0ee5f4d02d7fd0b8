use crate::identity::{One, Zero};
use vstd::prelude::*;

verus! {

/// A quaternion with four named components.
#[derive(Clone, Copy)]
#[verifier::ext_equal]
pub struct Quaternion<T> {
    /// The `x` component.
    pub x: T,
    /// The `y` component.
    pub y: T,
    /// The `z` component.
    pub z: T,
    /// The `w` component.
    pub w: T,
}

impl<T> Quaternion<T> {
    /// A quaternion from its four components.
    pub fn from_xyzw(x: T, y: T, z: T, w: T) -> (r: Quaternion<T>)
        ensures
            r.x == x,
            r.y == y,
            r.z == z,
            r.w == w,
    {
        Quaternion { x, y, z, w }
    }

    /// A quaternion with all components set to the given value.
    pub fn splat(v: T) -> (r: Quaternion<T>)
        where
            T: Copy,
        ensures
            r.x == v,
            r.y == v,
            r.z == v,
            r.w == v,
    {
        Quaternion { x: v, y: v, z: v, w: v }
    }

    /// A quaternion with all components set to zero.
    pub fn zero() -> (r: Quaternion<T>)
        where
            T: Zero,
        ensures
            r.x == T::zero_spec(),
            r.y == T::zero_spec(),
            r.z == T::zero_spec(),
            r.w == T::zero_spec(),
    {
        Quaternion { x: T::zero(), y: T::zero(), z: T::zero(), w: T::zero() }
    }

    /// A quaternion with all components set to one.
    pub fn one() -> (r: Quaternion<T>)
        where
            T: One,
        ensures
            r.x == T::one_spec(),
            r.y == T::one_spec(),
            r.z == T::one_spec(),
            r.w == T::one_spec(),
    {
        Quaternion { x: T::one(), y: T::one(), z: T::one(), w: T::one() }
    }
}

} // verus!
