use super::element::Element;
use core::marker::PhantomData;
use vstd::prelude::*;

verus! {

/// Widest hardware register assumed by the lane deducer, in bytes.
pub const REGISTER_BYTES: usize = 32;

/// True exactly when `n` is a power of two.
pub open spec fn is_pow2(n: int) -> bool
    decreases n,
{
    if n < 1 {
        false
    } else if n == 1 {
        true
    } else {
        n % 2 == 0 && is_pow2(n / 2)
    }
}

/// The largest power of two that is at most `n`, for `n >= 1`.
pub open spec fn floor_pow2(n: int) -> int
    decreases n,
{
    if n < 2 {
        1
    } else {
        2 * floor_pow2(n / 2)
    }
}

/// The lane count that [`nearest_lane`] deduces for an element of `size`
/// bytes and a vector of length `n`: the largest power of two not above `n`
/// (which is `n` itself when `n` is a power of two, and half of `n` rounded
/// up to the next power of two otherwise), capped at the register-filling
/// count `32 / size`; below two lanes no chunking is attempted and the
/// count is zero.
pub open spec fn lane_count_spec(size: int, n: int) -> int {
    if n < 2 {
        0
    } else if floor_pow2(n) < 32int / size {
        floor_pow2(n)
    } else {
        32int / size
    }
}

/// `floor_pow2` yields a power of two between 1 and `n`.
pub proof fn lemma_floor_pow2_bounds(n: int)
    requires
        n >= 1,
    ensures
        1 <= floor_pow2(n) <= n,
        is_pow2(floor_pow2(n)),
    decreases n,
{
    if n >= 2 {
        lemma_floor_pow2_bounds(n / 2);
    }
}

/// A power of two is its own floor.
pub proof fn lemma_floor_pow2_fixed(n: int)
    requires
        is_pow2(n),
    ensures
        floor_pow2(n) == n,
    decreases n,
{
    if n >= 2 {
        lemma_floor_pow2_fixed(n / 2);
    }
}

/// The deduced lane count is legal: it is zero or a power of two, it never
/// exceeds the requested length, and lanes times element size never exceeds
/// the widest register.
pub proof fn lemma_lane_count_legal(size: int, n: int)
    requires
        size == 1 || size == 2 || size == 4,
        n >= 0,
    ensures
        lane_count_spec(size, n) == 0 || is_pow2(lane_count_spec(size, n)),
        lane_count_spec(size, n) * size <= 32,
        lane_count_spec(size, n) <= n,
        n >= 2 ==> 2 <= lane_count_spec(size, n),
{
    if n >= 2 {
        lemma_floor_pow2_bounds(n);
        assert(is_pow2(32int / size)) by {
            reveal_with_fuel(is_pow2, 8);
        }
        assert(floor_pow2(n) >= 2) by {
            assert(floor_pow2(n) == 2 * floor_pow2(n / 2));
            lemma_floor_pow2_bounds(n / 2);
        }
    }
}

/// Deducing lanes a second time, from an already deduced count, returns
/// that count unchanged.
pub proof fn lemma_lane_count_idempotent(size: int, n: int)
    requires
        size == 1 || size == 2 || size == 4,
        n >= 0,
    ensures
        lane_count_spec(size, lane_count_spec(size, n)) == lane_count_spec(size, n),
{
    lemma_lane_count_legal(size, n);
    let l = lane_count_spec(size, n);
    if l >= 2 {
        lemma_floor_pow2_fixed(l);
    }
}

/// The largest power of two that is at most `n`.
///
/// Rounding `n` up to the next power of two and halving the result, as the
/// lane deducer is specified to do for a length that is not a power of two,
/// lands exactly on this value, and cannot overflow on the way.
pub fn floor_pow2_usize(n: usize) -> (r: usize)
    requires
        n >= 1,
    ensures
        r as int == floor_pow2(n as int),
    decreases n,
{
    if n < 2 {
        1
    } else {
        let half = floor_pow2_usize(n / 2);
        proof {
            lemma_floor_pow2_bounds(n as int / 2);
        }
        2 * half
    }
}

/// Determine the nearest lane count to `lanes` for elements of the given
/// byte `size`.
///
/// The element size must be one of the sizes below eight bytes that an
/// eligible element type has; any other size is a build-time configuration
/// error of the element table, never a runtime condition.
pub fn nearest_lane(size: usize, lanes: usize) -> (r: usize)
    requires
        size == 1 || size == 2 || size == 4,
    ensures
        r as int == lane_count_spec(size as int, lanes as int),
        r == 0 || is_pow2(r as int),
        r as int * size as int <= 32,
{
    proof {
        lemma_lane_count_legal(size as int, lanes as int);
    }
    let max_lanes = REGISTER_BYTES / size;
    if lanes == 0 {
        return 0;
    }
    let nearest = floor_pow2_usize(lanes);
    if nearest < 2 {
        0
    } else if nearest < max_lanes {
        nearest
    } else {
        max_lanes
    }
}

/// How many whole lane-sized chunks a vector of length `n` splits into.
pub open spec fn vectors_of(n: int, lanes: int) -> int {
    if lanes < 1 {
        0
    } else {
        n / lanes
    }
}

/// How many loose scalar elements remain after the whole chunks.
pub open spec fn remainder_of(n: int, lanes: int) -> int {
    if lanes < 1 {
        n
    } else {
        n % lanes
    }
}

/// The chunk partition is exact: the whole chunks and the remainder cover
/// every element once, for every length and every lane count.
pub proof fn lemma_partition_exact(n: int, lanes: int)
    requires
        n >= 0,
        lanes >= 0,
    ensures
        vectors_of(n, lanes) * lanes + remainder_of(n, lanes) == n,
        0 <= vectors_of(n, lanes),
        0 <= remainder_of(n, lanes),
        lanes >= 1 ==> remainder_of(n, lanes) < lanes,
{
    if lanes >= 1 {
        vstd::arithmetic::div_mod::lemma_fundamental_div_mod(n, lanes);
        vstd::arithmetic::div_mod::lemma_mod_division_less_than_divisor(n, lanes);
        vstd::arithmetic::div_mod::lemma_div_pos_is_pos(n, lanes);
        assert(lanes * (n / lanes) == (n / lanes) * lanes) by (nonlinear_arith);
    }
}

/// Carries a `(T, N)` pair to its deduced lane count.
pub struct Lanes<T, const N: usize>(PhantomData<[T; N]>);

/// Closes [`LaneCount`]: lanes are deduced only for the eligible element
/// types whose size stays below eight bytes.
pub trait Sealed {

}

/// A `(T, N)` pair for which a lane count is deduced.
///
/// The pairs without an implementation — those whose element type is
/// eight or more bytes wide — are a build-time configuration error for
/// every operation that chunks a vector, never a runtime condition.
pub trait LaneCount: Sealed {
    /// The deduced lane count.
    spec fn lanes_spec() -> int;

    /// The deduced lane count: how many elements one whole hardware
    /// register holds, or zero when the vector is too short for chunking.
    fn lanes() -> (r: usize)
        ensures
            r as int == Self::lanes_spec(),
            r == 0 || is_pow2(r as int),
    ;
}

impl<const N: usize> Sealed for Lanes<i8, N> {

}

impl<const N: usize> LaneCount for Lanes<i8, N> {
    open spec fn lanes_spec() -> int {
        lane_count_spec(1, N as int)
    }

    fn lanes() -> usize {
        nearest_lane(1, N)
    }
}

impl<const N: usize> Sealed for Lanes<i16, N> {

}

impl<const N: usize> LaneCount for Lanes<i16, N> {
    open spec fn lanes_spec() -> int {
        lane_count_spec(2, N as int)
    }

    fn lanes() -> usize {
        nearest_lane(2, N)
    }
}

impl<const N: usize> Sealed for Lanes<i32, N> {

}

impl<const N: usize> LaneCount for Lanes<i32, N> {
    open spec fn lanes_spec() -> int {
        lane_count_spec(4, N as int)
    }

    fn lanes() -> usize {
        nearest_lane(4, N)
    }
}

impl<const N: usize> Sealed for Lanes<u8, N> {

}

impl<const N: usize> LaneCount for Lanes<u8, N> {
    open spec fn lanes_spec() -> int {
        lane_count_spec(1, N as int)
    }

    fn lanes() -> usize {
        nearest_lane(1, N)
    }
}

impl<const N: usize> Sealed for Lanes<u16, N> {

}

impl<const N: usize> LaneCount for Lanes<u16, N> {
    open spec fn lanes_spec() -> int {
        lane_count_spec(2, N as int)
    }

    fn lanes() -> usize {
        nearest_lane(2, N)
    }
}

impl<const N: usize> Sealed for Lanes<u32, N> {

}

impl<const N: usize> LaneCount for Lanes<u32, N> {
    open spec fn lanes_spec() -> int {
        lane_count_spec(4, N as int)
    }

    fn lanes() -> usize {
        nearest_lane(4, N)
    }
}

} // verus!
