use super::element::Element;
use super::lanes::{LaneCount, Lanes};
use super::ops::vals;
use super::reduce::{self, chunked_fold_fits, fold_fits, reduce_vals, Reduction};
use super::Vec;
use vstd::prelude::*;

verus! {

/// The ordered product of all elements, seeded with one: one logical
/// reduction, with the two verified strategies of the engine behind it.
///
/// Either strategy may run, so the vector must overflow in neither: every
/// running total of the plain fold and of the chunk-then-remainder fold
/// has to stay within the element type.
pub fn product<T: Element, const N: usize>(vec: Vec<T, N>) -> (r: T)
    where
        Lanes<T, N>: LaneCount,
    requires
        fold_fits(Reduction::Product, vals(vec@), T::min_v(), T::max_v()),
        chunked_fold_fits(
            Reduction::Product,
            vals(vec@),
            <Lanes<T, N> as LaneCount>::lanes_spec(),
            T::min_v(),
            T::max_v(),
        ),
    ensures
        r.v() == reduce_vals(Reduction::Product, vals(vec@)),
{
    reduce::reduce(Reduction::Product, vec)
}

} // verus!
