//! Fixed-length numeric vectors with a dual-path arithmetic core.
//!
//! The central type is a generic vector of `N` scalars.  Every elementwise
//! operation and reduction is offered through one logical entry point backed
//! by two verified bodies: a plain scalar loop, and a chunked body shaped
//! like a hardware-vector implementation (whole lane-sized groups first, a
//! scalar remainder last).  Both bodies carry the same contract, so the
//! strategy that runs is unobservable to callers.

mod euler_angles;
mod matrix;
mod quaternion;
mod reals;
mod vec2;
mod vec3;
mod vec4;

pub mod identity;
pub mod vec;

pub use euler_angles::EulerAngles;
pub use identity::{One, Zero};
pub use matrix::Matrix;
pub use quaternion::Quaternion;
pub use reals::Real;
pub use vec::{Element, LaneCount, Lanes, Vec};
pub use vec2::Vec2;
pub use vec3::Vec3;
pub use vec4::Vec4;
