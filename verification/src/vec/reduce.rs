//! The dual-path ordered reductions.
//!
//! A reduction folds the whole vector into one scalar, seeded with the
//! identity that the reduction's operator demands.  As with the
//! elementwise engine, one logical reduction has two verified bodies:
//! [`scalar_reduce`] folds every element in index order, while
//! [`chunked_reduce`] folds whole lane-sized chunks first — [`lane_reduce`]
//! plays the part of the single ordered hardware reduction over one chunk —
//! and folds the loose remainder elements last, in index order.  Both
//! bodies are proved to return the element holding the exact mathematical
//! fold of the whole vector, so the strategies agree wherever both run.

use super::element::Element;
use super::lanes::{LaneCount, Lanes};
use super::ops::{apply_elem, vals, Operation};
use super::Vec;
use vstd::arithmetic::div_mod::{
    lemma_fundamental_div_mod, lemma_mod_add_multiples_vanish, lemma_mod_division_less_than_divisor,
    lemma_mod_multiples_vanish, lemma_small_mod,
};
use vstd::prelude::*;

verus! {

broadcast use crate::vec::lemma_vec_len;

/// A named ordered reduction.
#[derive(Clone, Copy, Debug)]
pub enum Reduction {
    /// Fold with native addition, seeded with zero.
    Sum,
    /// Fold with native multiplication, seeded with one.
    Product,
}

/// The elementwise operator that one step of the reduction applies.
pub open spec fn op_of(red: Reduction) -> Operation {
    match red {
        Reduction::Sum => Operation::Add,
        Reduction::Product => Operation::Mul,
    }
}

/// The identity that seeds the fold.
pub open spec fn reduce_seed(red: Reduction) -> int {
    match red {
        Reduction::Sum => 0,
        Reduction::Product => 1,
    }
}

/// One fold step on mathematical values.
pub open spec fn reduce_step(red: Reduction, acc: int, x: int) -> int {
    match red {
        Reduction::Sum => acc + x,
        Reduction::Product => acc * x,
    }
}

/// The mathematical value of the whole fold: the seed combined with every
/// value of `q` in index order.
pub open spec fn reduce_vals(red: Reduction, q: Seq<int>) -> int
    decreases q.len(),
{
    if q.len() == 0 {
        reduce_seed(red)
    } else {
        reduce_step(red, reduce_vals(red, q.drop_last()), q.last())
    }
}

/// The `j` values of `q` starting at `start`.
pub open spec fn window(q: Seq<int>, start: int, j: int) -> Seq<int> {
    q.subrange(start, start + j)
}

/// Every partial value of the plain left fold stays between `lo` and `hi`,
/// so no step of the scalar body overflows.
pub open spec fn fold_fits(red: Reduction, q: Seq<int>, lo: int, hi: int) -> bool {
    forall|k: int| 0 <= k <= q.len() ==> lo <= #[trigger] reduce_vals(red, q.take(k)) <= hi
}

/// Every partial value that the chunked body forms stays between `lo` and
/// `hi`: the partials inside each whole chunk, the running totals at chunk
/// boundaries, and the partials of the remainder fold.  Without a usable
/// lane width the chunked body degenerates to the plain fold and so does
/// this condition.
pub open spec fn chunked_fold_fits(
    red: Reduction,
    q: Seq<int>,
    lanes: int,
    lo: int,
    hi: int,
) -> bool {
    if lanes < 2 {
        fold_fits(red, q, lo, hi)
    } else {
        let len = q.len() as int;
        &&& forall|s: int, j: int|
            0 <= s && s % lanes == 0 && s + lanes <= len && 0 <= j <= lanes ==> lo <= #[trigger] reduce_vals(
                red,
                window(q, s, j),
            ) <= hi
        &&& forall|k: int|
            0 <= k <= len && k % lanes == 0 ==> lo <= #[trigger] reduce_vals(red, q.take(k)) <= hi
        &&& forall|k: int|
            len - len % lanes <= k <= len ==> lo <= #[trigger] reduce_vals(red, q.take(k)) <= hi
    }
}

/// Extending a prefix fold by one element is one fold step.
proof fn lemma_fold_step(red: Reduction, q: Seq<int>, i: int)
    requires
        0 <= i < q.len(),
    ensures
        reduce_vals(red, q.take(i + 1)) == reduce_step(red, reduce_vals(red, q.take(i)), q[i]),
{
    assert(q.take(i + 1).drop_last() =~= q.take(i));
    assert(q.take(i + 1).last() == q[i]);
}

/// Extending a window fold by one element is one fold step.
proof fn lemma_window_step(red: Reduction, q: Seq<int>, start: int, j: int)
    requires
        0 <= start,
        0 <= j,
        start + j < q.len(),
    ensures
        reduce_vals(red, window(q, start, j + 1)) == reduce_step(
            red,
            reduce_vals(red, window(q, start, j)),
            q[start + j],
        ),
{
    assert(window(q, start, j + 1).drop_last() =~= window(q, start, j));
    assert(window(q, start, j + 1).last() == q[start + j]);
}

/// Folding a concatenation combines the folds of the parts in one step:
/// the seed is the identity of the step operator, which is associative on
/// mathematical values.
proof fn lemma_fold_concat(red: Reduction, q1: Seq<int>, q2: Seq<int>)
    ensures
        reduce_vals(red, q1 + q2) == reduce_step(
            red,
            reduce_vals(red, q1),
            reduce_vals(red, q2),
        ),
    decreases q2.len(),
{
    if q2.len() == 0 {
        assert(q1 + q2 =~= q1);
        assert(reduce_vals(red, q2) == reduce_seed(red));
    } else {
        lemma_fold_concat(red, q1, q2.drop_last());
        assert((q1 + q2).drop_last() =~= q1 + q2.drop_last());
        assert((q1 + q2).last() == q2.last());
        let a = reduce_vals(red, q1);
        let b = reduce_vals(red, q2.drop_last());
        let c = q2.last();
        assert(reduce_vals(red, q1 + q2) == reduce_step(red, reduce_step(red, a, b), c));
        assert(reduce_vals(red, q2) == reduce_step(red, b, c));
        match red {
            Reduction::Sum => {
            },
            Reduction::Product => {
                assert((a * b) * c == a * (b * c)) by (nonlinear_arith);
            },
        }
    }
}

/// The elementwise operator that one step of the reduction applies.
pub fn reduce_op(red: Reduction) -> (r: Operation)
    ensures
        r == op_of(red),
{
    match red {
        Reduction::Sum => Operation::Add,
        Reduction::Product => Operation::Mul,
    }
}

/// The seed element of the fold: the identity provided for the reduction's
/// operator.
pub fn reduce_seed_elem<T: Element>(red: Reduction) -> (r: T)
    ensures
        r.v() == reduce_seed(red),
{
    proof {
        T::identity_v();
    }
    match red {
        Reduction::Sum => T::zero(),
        Reduction::Product => T::one(),
    }
}

/// The constant-evaluable body: seed the fold and combine every element in
/// index order with one plain scalar loop.
pub fn scalar_reduce<T: Element, const N: usize>(red: Reduction, vec: Vec<T, N>) -> (r: T)
    requires
        fold_fits(red, vals(vec@), T::min_v(), T::max_v()),
    ensures
        r.v() == reduce_vals(red, vals(vec@)),
{
    let ghost q = vals(vec@);
    proof {
        assert(q.take(0) =~= Seq::<int>::empty());
    }
    let mut acc: T = reduce_seed_elem(red);
    let mut i: usize = 0;
    while i < N
        invariant
            i <= N,
            q == vals(vec@),
            q.len() == N,
            fold_fits(red, q, T::min_v(), T::max_v()),
            acc.v() == reduce_vals(red, q.take(i as int)),
        decreases N - i,
    {
        proof {
            lemma_fold_step(red, q, i as int);
        }
        let x = vec.index(i);
        acc = apply_elem(reduce_op(red), acc, x);
        i = i + 1;
    }
    proof {
        assert(q.take(N as int) =~= q);
    }
    acc
}

/// One whole-chunk ordered reduction of the hardware-shaped body.
///
/// This helper folds the `len` elements starting at `start` into one
/// scalar, seeded with the identity; it is the seam where a hardware build
/// substitutes the single ordered reduction instruction for the chunk, and
/// its contract is exactly what that instruction guarantees: the exact
/// left-to-right fold of the chunk.
pub fn lane_reduce<T: Element, const N: usize>(
    red: Reduction,
    vec: &Vec<T, N>,
    start: usize,
    len: usize,
) -> (r: T)
    requires
        start + len <= N,
        forall|j: int|
            0 <= j <= len ==> T::min_v() <= #[trigger] reduce_vals(
                red,
                window(vals(vec@), start as int, j),
            ) <= T::max_v(),
    ensures
        r.v() == reduce_vals(red, window(vals(vec@), start as int, len as int)),
{
    let ghost q = vals(vec@);
    proof {
        assert(window(q, start as int, 0) =~= Seq::<int>::empty());
    }
    let mut acc: T = reduce_seed_elem(red);
    let mut j: usize = 0;
    while j < len
        invariant
            j <= len,
            start + len <= N,
            q == vals(vec@),
            q.len() == N,
            forall|k: int|
                0 <= k <= len ==> T::min_v() <= #[trigger] reduce_vals(
                    red,
                    window(q, start as int, k),
                ) <= T::max_v(),
            acc.v() == reduce_vals(red, window(q, start as int, j as int)),
        decreases len - j,
    {
        proof {
            lemma_window_step(red, q, start as int, j as int);
        }
        let x = vec.index(start + j);
        acc = apply_elem(reduce_op(red), acc, x);
        j = j + 1;
    }
    acc
}

/// The hardware-shaped body: whole lane-sized chunks are each folded by
/// one ordered chunk reduction, in index order; the loose remainder
/// elements are folded last, in index order.
pub fn chunked_reduce<T: Element, const N: usize>(red: Reduction, vec: Vec<T, N>) -> (r: T)
    where
        Lanes<T, N>: LaneCount,
    requires
        chunked_fold_fits(
            red,
            vals(vec@),
            <Lanes<T, N> as LaneCount>::lanes_spec(),
            T::min_v(),
            T::max_v(),
        ),
    ensures
        r.v() == reduce_vals(red, vals(vec@)),
{
    let ghost q = vals(vec@);
    proof {
        assert(q.take(0) =~= Seq::<int>::empty());
    }
    let lanes = <Lanes<T, N> as LaneCount>::lanes();
    let mut acc: T = reduce_seed_elem(red);
    let mut i: usize = 0;
    if 2 <= lanes && lanes <= N {
        while i <= N - lanes
            invariant
                2 <= lanes <= N,
                lanes as int == <Lanes<T, N> as LaneCount>::lanes_spec(),
                i <= N,
                i as int % lanes as int == 0,
                q == vals(vec@),
                q.len() == N,
                chunked_fold_fits(red, q, lanes as int, T::min_v(), T::max_v()),
                acc.v() == reduce_vals(red, q.take(i as int)),
            decreases N - i,
        {
            let local = lane_reduce(red, &vec, i, lanes);
            proof {
                assert(q.take(i as int) + window(q, i as int, lanes as int) =~= q.take(
                    i as int + lanes as int,
                ));
                lemma_fold_concat(red, q.take(i as int), window(q, i as int, lanes as int));
                lemma_mod_add_multiples_vanish(i as int, lanes as int);
                lemma_multiple_within(i as int + lanes as int, N as int, lanes as int);
            }
            acc = apply_elem(reduce_op(red), acc, local);
            i = i + lanes;
        }
        proof {
            lemma_fundamental_div_mod(i as int, lanes as int);
            lemma_mod_multiples_vanish(i as int / lanes as int, N as int - i as int, lanes as int);
            assert(lanes as int * (i as int / lanes as int) + (N as int - i as int) == N as int);
            lemma_small_mod((N - i) as nat, lanes as nat);
            assert(N as int % lanes as int == N as int - i as int);
        }
    } else {
        proof {
            if lanes >= 2 {
                lemma_small_mod(N as nat, lanes as nat);
            }
        }
    }
    while i < N
        invariant
            i <= N,
            q == vals(vec@),
            q.len() == N,
            forall|k: int|
                i <= k <= N ==> T::min_v() <= #[trigger] reduce_vals(red, q.take(k))
                    <= T::max_v(),
            acc.v() == reduce_vals(red, q.take(i as int)),
        decreases N - i,
    {
        proof {
            lemma_fold_step(red, q, i as int);
        }
        let x = vec.index(i);
        acc = apply_elem(reduce_op(red), acc, x);
        i = i + 1;
    }
    proof {
        assert(q.take(N as int) =~= q);
    }
    acc
}

/// A multiple of `lanes` that is at most `len` cannot exceed the last
/// chunk boundary below `len`.
proof fn lemma_multiple_within(m: int, len: int, lanes: int)
    requires
        lanes >= 1,
        m % lanes == 0,
        0 <= m <= len,
    ensures
        m <= len - len % lanes,
{
    lemma_fundamental_div_mod(m, lanes);
    lemma_mod_multiples_vanish(m / lanes, len - m, lanes);
    assert(lanes * (m / lanes) + (len - m) == len);
    assert(len % lanes == (len - m) % lanes);
    if len - m < lanes {
        lemma_small_mod((len - m) as nat, lanes as nat);
    } else {
        lemma_mod_division_less_than_divisor(len - m, lanes);
    }
    assert((len - m) % lanes <= len - m);
}

/// The one logical reduction.
///
/// As with the elementwise engine, the strategy is selected here, once, by
/// whether a whole lane-sized chunk is available; both bodies return the
/// element holding the exact fold, so the selection is unobservable.
pub fn reduce<T: Element, const N: usize>(red: Reduction, vec: Vec<T, N>) -> (r: T)
    where
        Lanes<T, N>: LaneCount,
    requires
        fold_fits(red, vals(vec@), T::min_v(), T::max_v()),
        chunked_fold_fits(
            red,
            vals(vec@),
            <Lanes<T, N> as LaneCount>::lanes_spec(),
            T::min_v(),
            T::max_v(),
        ),
    ensures
        r.v() == reduce_vals(red, vals(vec@)),
{
    let lanes = <Lanes<T, N> as LaneCount>::lanes();
    if lanes >= 2 {
        chunked_reduce(red, vec)
    } else {
        scalar_reduce(red, vec)
    }
}

/// Both reduction strategies agree: any two elements holding the exact
/// fold of the same values are equal, bit for bit.
pub proof fn lemma_reductions_agree<T: Element>(red: Reduction, r1: T, r2: T, q: Seq<int>)
    requires
        r1.v() == reduce_vals(red, q),
        r2.v() == reduce_vals(red, q),
    ensures
        r1 == r2,
{
    r1.v_injective(r2);
}

} // verus!
