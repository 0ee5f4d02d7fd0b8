//! The dual-path elementwise arithmetic engine.
//!
//! Every binary elementwise operation is one logical transform with two
//! verified bodies.  [`scalar_apply`] is the constant-evaluable strategy: a
//! plain sequential loop over every element.  [`chunked_apply`] is shaped
//! like the hardware strategy: it walks whole lane-sized chunks first —
//! [`lane_apply`] plays the part of the single wide instruction applied to
//! one chunk — and finishes the loose remainder elements with the plain
//! scalar operation.  Both bodies carry the identical contract
//! [`is_map2`], so they agree on every input and the choice between them,
//! made once in [`apply`], is unobservable to callers.

use super::element::{trunc_div, trunc_rem, Element};
use super::lanes::{LaneCount, Lanes};
use super::Vec;
use vstd::prelude::*;

verus! {

broadcast use crate::vec::lemma_vec_len;

/// A named binary elementwise transform.
#[derive(Clone, Copy, Debug)]
pub enum Operation {
    /// Elementwise native addition.
    Add,
    /// Elementwise native subtraction.
    Sub,
    /// Elementwise native multiplication.
    Mul,
    /// Elementwise native division.
    Div,
    /// Elementwise native remainder.
    Rem,
}

/// The mathematical values of a sequence of elements.
pub open spec fn vals<T: Element>(s: Seq<T>) -> Seq<int> {
    s.map_values(|x: T| x.v())
}

/// What `op` yields on the mathematical values of two scalars.
pub open spec fn op_v(op: Operation, a: int, b: int) -> int {
    match op {
        Operation::Add => a + b,
        Operation::Sub => a - b,
        Operation::Mul => a * b,
        Operation::Div => trunc_div(a, b),
        Operation::Rem => trunc_rem(a, b),
    }
}

/// True exactly when the native scalar operation on values `a` and `b` of
/// a type bounded by `lo` and `hi` neither overflows nor divides by zero,
/// i.e. when it runs without a panic.
pub open spec fn op_ok_v(op: Operation, a: int, b: int, lo: int, hi: int) -> bool {
    match op {
        Operation::Add => lo <= a + b <= hi,
        Operation::Sub => lo <= a - b <= hi,
        Operation::Mul => lo <= a * b <= hi,
        Operation::Div => b != 0 && lo <= trunc_div(a, b) <= hi,
        Operation::Rem => b != 0 && !(a == lo && b == -1),
    }
}

/// [`op_ok_v`] on a pair of elements, at the bounds of their type.
pub open spec fn op_ok<T: Element>(op: Operation, a: T, b: T) -> bool {
    op_ok_v(op, a.v(), b.v(), T::min_v(), T::max_v())
}

/// The elementwise image of two value sequences under `op`.
pub open spec fn map2_v(op: Operation, qa: Seq<int>, qb: Seq<int>) -> Seq<int> {
    Seq::new(qa.len(), |i: int| op_v(op, qa[i], qb[i]))
}

/// [`op_ok_v`] on every pair of two value sequences.
pub open spec fn map2_ok_v(op: Operation, qa: Seq<int>, qb: Seq<int>, lo: int, hi: int) -> bool {
    &&& qa.len() == qb.len()
    &&& forall|i: int| 0 <= i < qa.len() ==> op_ok_v(op, #[trigger] qa[i], qb[i], lo, hi)
}

/// The native operation runs without a panic on every element pair.
pub open spec fn map2_ok<T: Element>(op: Operation, a: Seq<T>, b: Seq<T>) -> bool {
    &&& a.len() == b.len()
    &&& forall|i: int| 0 <= i < a.len() ==> op_ok(op, #[trigger] a[i], b[i])
}

/// `r` is the elementwise image of `a` and `b` under `op`: same shape, and
/// every element holds exactly the value the scalar operation yields.
pub open spec fn is_map2<T: Element>(op: Operation, r: Seq<T>, a: Seq<T>, b: Seq<T>) -> bool {
    &&& r.len() == a.len()
    &&& a.len() == b.len()
    &&& forall|i: int| 0 <= i < a.len() ==> (#[trigger] r[i]).v() == op_v(op, a[i].v(), b[i].v())
}

/// The two shapes of the elementwise contract coincide: a result sequence
/// is the elementwise image exactly when its values are.
pub proof fn lemma_map2_vals<T: Element>(op: Operation, r: Seq<T>, a: Seq<T>, b: Seq<T>)
    requires
        is_map2(op, r, a, b),
    ensures
        vals(r) == map2_v(op, vals(a), vals(b)),
{
    assert(vals(r) =~= map2_v(op, vals(a), vals(b)));
}

/// The two shapes of the panic-freedom condition coincide.
pub proof fn lemma_map2_ok_vals<T: Element>(op: Operation, a: Seq<T>, b: Seq<T>)
    ensures
        map2_ok(op, a, b) == map2_ok_v(op, vals(a), vals(b), T::min_v(), T::max_v()),
{
    if map2_ok(op, a, b) {
        assert forall|i: int| 0 <= i < vals(a).len() implies op_ok_v(
            op,
            #[trigger] vals(a)[i],
            vals(b)[i],
            T::min_v(),
            T::max_v(),
        ) by {
            assert(op_ok(op, a[i], b[i]));
        }
    }
    if map2_ok_v(op, vals(a), vals(b), T::min_v(), T::max_v()) {
        assert forall|i: int| 0 <= i < a.len() implies op_ok(op, #[trigger] a[i], b[i]) by {
            assert(op_ok_v(op, vals(a)[i], vals(b)[i], T::min_v(), T::max_v()));
        }
    }
}

/// Applies `op` to one pair of scalars through the element table.
pub fn apply_elem<T: Element>(op: Operation, a: T, b: T) -> (r: T)
    requires
        op_ok(op, a, b),
    ensures
        r.v() == op_v(op, a.v(), b.v()),
{
    match op {
        Operation::Add => a.add_elem(b),
        Operation::Sub => a.sub_elem(b),
        Operation::Mul => a.mul_elem(b),
        Operation::Div => a.div_elem(b),
        Operation::Rem => a.rem_elem(b),
    }
}

/// The constant-evaluable body: one plain scalar loop over every element,
/// ignoring the lane grouping entirely.
pub fn scalar_apply<T: Element, const N: usize>(op: Operation, a: Vec<T, N>, b: Vec<T, N>) -> (r:
    Vec<T, N>)
    requires
        map2_ok(op, a@, b@),
    ensures
        is_map2(op, r@, a@, b@),
{
    let mut out = a;
    let mut i: usize = 0;
    while i < N
        invariant
            i <= N,
            map2_ok(op, a@, b@),
            forall|j: int| 0 <= j < i ==> (#[trigger] out@[j]).v() == op_v(op, a@[j].v(), b@[j].v()),
            forall|j: int| i <= j < N ==> out@[j] == a@[j],
        decreases N - i,
    {
        let x = out.index(i);
        let y = b.index(i);
        out.set(i, apply_elem(op, x, y));
        i = i + 1;
    }
    out
}

/// One whole-chunk step of the hardware-shaped body.
///
/// This helper applies `op` to the `len` elements starting at `start` in
/// one call; it is the seam where a hardware build substitutes the single
/// wide vector instruction for the chunk, and its contract is exactly what
/// that instruction guarantees: each lane holds the scalar result, nothing
/// outside the chunk moves.
pub fn lane_apply<T: Element, const N: usize>(
    op: Operation,
    out: &mut Vec<T, N>,
    b: &Vec<T, N>,
    start: usize,
    len: usize,
)
    requires
        start + len <= N,
        forall|j: int|
            start <= j < start + len ==> op_ok(op, #[trigger] old(out)@[j], b@[j]),
    ensures
        forall|j: int|
            start <= j < start + len ==> (#[trigger] final(out)@[j]).v() == op_v(
                op,
                old(out)@[j].v(),
                b@[j].v(),
            ),
        forall|j: int|
            0 <= j < N && !(start <= j < start + len) ==> final(out)@[j] == old(out)@[j],
{
    let mut k: usize = 0;
    while k < len
        invariant
            k <= len,
            start + len <= N,
            forall|j: int| start <= j < start + len ==> op_ok(op, #[trigger] old(out)@[j], b@[j]),
            forall|j: int|
                start <= j < start + k ==> (#[trigger] out@[j]).v() == op_v(
                    op,
                    old(out)@[j].v(),
                    b@[j].v(),
                ),
            forall|j: int| 0 <= j < N && !(start <= j < start + k) ==> out@[j] == old(out)@[j],
        decreases len - k,
    {
        let x = out.index(start + k);
        let y = b.index(start + k);
        out.set(start + k, apply_elem(op, x, y));
        k = k + 1;
    }
}

/// The hardware-shaped body: whole lane-sized chunks first, loose
/// remainder elements last, in index order.
pub fn chunked_apply<T: Element, const N: usize>(op: Operation, a: Vec<T, N>, b: Vec<T, N>) -> (r:
    Vec<T, N>)
    where
        Lanes<T, N>: LaneCount,
    requires
        map2_ok(op, a@, b@),
    ensures
        is_map2(op, r@, a@, b@),
{
    let lanes = <Lanes<T, N> as LaneCount>::lanes();
    let mut out = a;
    let mut i: usize = 0;
    if 2 <= lanes && lanes <= N {
        while i <= N - lanes
            invariant
                2 <= lanes <= N,
                i <= N,
                map2_ok(op, a@, b@),
                forall|j: int|
                    0 <= j < i ==> (#[trigger] out@[j]).v() == op_v(op, a@[j].v(), b@[j].v()),
                forall|j: int| i <= j < N ==> out@[j] == a@[j],
            decreases N - i,
        {
            lane_apply(op, &mut out, &b, i, lanes);
            i = i + lanes;
        }
    }
    while i < N
        invariant
            i <= N,
            map2_ok(op, a@, b@),
            forall|j: int| 0 <= j < i ==> (#[trigger] out@[j]).v() == op_v(op, a@[j].v(), b@[j].v()),
            forall|j: int| i <= j < N ==> out@[j] == a@[j],
        decreases N - i,
    {
        let x = out.index(i);
        let y = b.index(i);
        out.set(i, apply_elem(op, x, y));
        i = i + 1;
    }
    out
}

/// The one logical elementwise operation.
///
/// The strategy is selected here, once, by whether a whole lane-sized
/// chunk is available: the hardware-shaped body runs when chunking is
/// possible, the plain scalar body otherwise.  Both bodies meet the same
/// contract, so the selection is unobservable to the caller.
pub fn apply<T: Element, const N: usize>(op: Operation, a: Vec<T, N>, b: Vec<T, N>) -> (r: Vec<
    T,
    N,
>)
    where
        Lanes<T, N>: LaneCount,
    requires
        map2_ok(op, a@, b@),
    ensures
        is_map2(op, r@, a@, b@),
{
    let lanes = <Lanes<T, N> as LaneCount>::lanes();
    if lanes >= 2 {
        chunked_apply(op, a, b)
    } else {
        scalar_apply(op, a, b)
    }
}

/// Both strategies agree: any two results that satisfy the one elementwise
/// contract for the same operands are equal, bit for bit, so the scalar
/// body and the hardware-shaped body produce identical output on every
/// input both accept.
pub proof fn lemma_strategies_agree<T: Element>(
    op: Operation,
    r1: Seq<T>,
    r2: Seq<T>,
    a: Seq<T>,
    b: Seq<T>,
)
    requires
        is_map2(op, r1, a, b),
        is_map2(op, r2, a, b),
    ensures
        r1 == r2,
{
    assert forall|i: int| 0 <= i < r1.len() implies r1[i] == r2[i] by {
        r1[i].v_injective(r2[i]);
    }
    assert(r1 =~= r2);
}

/// Adding the zero vector is always defined: no element pair can
/// overflow, so the operation accepts every vector beside it.
pub proof fn lemma_add_identity_ok<T: Element>(a: Seq<T>, z: Seq<T>)
    requires
        a.len() == z.len(),
        forall|i: int| 0 <= i < z.len() ==> z[i] == T::zero_spec(),
    ensures
        map2_ok(Operation::Add, a, z),
{
    T::identity_v();
    assert forall|i: int| 0 <= i < a.len() implies op_ok(Operation::Add, #[trigger] a[i], z[i]) by {
        a[i].v_in_range();
    }
}

/// Multiplying by the all-ones vector is always defined: no element pair
/// can overflow, so the operation accepts every vector beside it.
pub proof fn lemma_mul_identity_ok<T: Element>(a: Seq<T>, o: Seq<T>)
    requires
        a.len() == o.len(),
        forall|i: int| 0 <= i < o.len() ==> o[i] == T::one_spec(),
    ensures
        map2_ok(Operation::Mul, a, o),
{
    T::identity_v();
    assert forall|i: int| 0 <= i < a.len() implies op_ok(Operation::Mul, #[trigger] a[i], o[i]) by {
        a[i].v_in_range();
        assert(a[i].v() * 1 == a[i].v()) by (nonlinear_arith);
    }
}

/// Adding the zero vector returns the left operand unchanged, for every
/// vector of every eligible element type.
pub proof fn lemma_add_identity<T: Element>(r: Seq<T>, a: Seq<T>, z: Seq<T>)
    requires
        is_map2(Operation::Add, r, a, z),
        forall|i: int| 0 <= i < z.len() ==> z[i] == T::zero_spec(),
    ensures
        r == a,
{
    T::identity_v();
    assert forall|i: int| 0 <= i < r.len() implies r[i] == a[i] by {
        r[i].v_injective(a[i]);
    }
    assert(r =~= a);
}

/// Multiplying by the all-ones vector returns the left operand unchanged,
/// for every vector of every eligible element type.
pub proof fn lemma_mul_identity<T: Element>(r: Seq<T>, a: Seq<T>, o: Seq<T>)
    requires
        is_map2(Operation::Mul, r, a, o),
        forall|i: int| 0 <= i < o.len() ==> o[i] == T::one_spec(),
    ensures
        r == a,
{
    T::identity_v();
    assert forall|i: int| 0 <= i < r.len() implies r[i] == a[i] by {
        assert(r[i].v() == a[i].v() * 1);
        r[i].v_injective(a[i]);
    }
    assert(r =~= a);
}

} // verus!
