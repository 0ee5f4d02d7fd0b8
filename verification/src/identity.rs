//! The additive and multiplicative identity providers.

mod one;
mod zero;

pub use one::{one, One};
pub use zero::{zero, Zero};
