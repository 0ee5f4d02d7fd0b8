//! The scalar collaborator that supplies square roots and angle factors.

mod sealed;

pub use sealed::Sealed;

use vstd::prelude::*;

verus! {

/// The real-number scalar provider consumed by the vector facade.
///
/// The core treats each of these as an opaque pure function of its
/// arguments: the contract of [`Real::sqrt`] and of the two angle factors
/// says only that the call returns the function's declared value, and the
/// facade's own contracts are stated over those declared values.  Every
/// implementation verified with this crate must prove that its executable
/// code returns exactly the value its own specification functions name.
pub trait Real: Sealed + Copy + Sized {
    /// The square root function of the type.
    spec fn sqrt_spec(self) -> Self;

    /// Returns the square root of `self`.
    fn sqrt(self) -> (r: Self)
        ensures
            r == self.sqrt_spec(),
    ;

    /// The degrees-per-radian scale factor of the type.
    spec fn deg_per_rad_spec() -> Self;

    /// Returns the degrees-per-radian scale factor.
    fn deg_per_rad() -> (r: Self)
        ensures
            r == Self::deg_per_rad_spec(),
    ;

    /// The radians-per-degree scale factor of the type.
    spec fn rad_per_deg_spec() -> Self;

    /// Returns the radians-per-degree scale factor.
    fn rad_per_deg() -> (r: Self)
        ensures
            r == Self::rad_per_deg_spec(),
    ;

    /// Returns the absolute value of `self`.
    fn abs(self) -> Self;

    /// Returns the arcsine of `self`, in radians.
    fn asin(self) -> Self;

    /// Returns the four-quadrant arctangent of `self` and `other`, in
    /// radians.
    fn atan2(self, other: Self) -> Self;

    /// Restricts `self` to the closed interval from `low` to `high`.
    fn clamp(self, low: Self, high: Self) -> Self;

    /// Returns the magnitude of `self` with the sign of `sign`.
    fn copysign(self, sign: Self) -> Self;

    /// Returns the cosine of `self` radians.
    fn cos(self) -> Self;

    /// Returns the sine of `self` radians.
    fn sin(self) -> Self;

    /// Returns the sine and the cosine of `self` radians.
    fn sin_cos(self) -> (Self, Self);
}

} // verus!
