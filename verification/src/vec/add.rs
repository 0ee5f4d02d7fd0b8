use super::element::Element;
use super::lanes::{LaneCount, Lanes};
use super::ops::{self, is_map2, map2_ok, Operation};
use super::Vec;
use vstd::prelude::*;

verus! {

/// Elementwise addition of two vectors: one logical operation, with the
/// two verified strategies of the engine behind it.
pub fn add<T: Element, const N: usize>(a: Vec<T, N>, b: Vec<T, N>) -> (r: Vec<T, N>)
    where
        Lanes<T, N>: LaneCount,
    requires
        map2_ok(Operation::Add, a@, b@),
    ensures
        is_map2(Operation::Add, r@, a@, b@),
{
    ops::apply(Operation::Add, a, b)
}

} // verus!
