use super::Vec;
use vstd::prelude::*;

verus! {

/// Addition on cursor positions, saturating at the top of `usize`.
pub open spec fn sat_add(a: int, b: int) -> int {
    if a + b > usize::MAX as int {
        usize::MAX as int
    } else {
        a + b
    }
}

/// Subtraction on backward cursor positions, saturating at the bounds of
/// `isize`.
pub open spec fn sat_sub_back(a: int, b: int) -> int {
    if a - b > isize::MAX as int {
        isize::MAX as int
    } else if a - b < isize::MIN as int {
        isize::MIN as int
    } else {
        a - b
    }
}

/// A forward/backward cursor over a borrowed vector.
///
/// The forward cursor starts at zero and yields elements first-to-last;
/// the backward cursor counts the elements not yet taken from the back,
/// starts at `N`, and yields elements last-to-first.  The two cursors are
/// independent.
pub struct Iter<'a, T, const N: usize> {
    vec: &'a Vec<T, N>,
    forward: usize,
    backward: isize,
}

impl<'a, T, const N: usize> Iter<'a, T, N> {
    /// The elements the cursor walks over.
    pub closed spec fn items(&self) -> Seq<T> {
        self.vec@
    }

    /// The forward cursor position.
    pub closed spec fn pos(&self) -> int {
        self.forward as int
    }

    /// The backward cursor position: one past the next element to be taken
    /// from the back.
    pub closed spec fn back(&self) -> int {
        self.backward as int
    }

    /// A fresh cursor over `vec`.
    pub fn new(vec: &'a Vec<T, N>) -> (r: Iter<'a, T, N>)
        requires
            N <= isize::MAX,
        ensures
            r.items() == vec@,
            r.pos() == 0,
            r.back() == N as int,
    {
        Iter { vec, forward: 0, backward: N as isize }
    }

    /// How many elements remain ahead of the forward cursor.
    pub fn len(&self) -> (r: usize)
        ensures
            r == if self.pos() <= N { N - self.pos() } else { 0int },
    {
        if self.forward >= N {
            0
        } else {
            N - self.forward
        }
    }

    /// Consumes the cursor and returns how many elements remained ahead of
    /// it.
    pub fn count(self) -> (r: usize)
        ensures
            r == if self.pos() <= N { N - self.pos() } else { 0int },
    {
        self.len()
    }

    /// The next element ahead of the forward cursor.
    pub fn next(&mut self) -> (r: Option<&'a T>)
        ensures
            final(self).items() == old(self).items(),
            final(self).back() == old(self).back(),
            final(self).pos() == sat_add(old(self).pos(), 1),
            old(self).pos() < N ==> (r matches Some(x) && *x == old(self).items()[old(
                self,
            ).pos()]),
            old(self).pos() >= N ==> r is None,
    {
        self.nth(0)
    }

    /// The element `n` steps ahead of the forward cursor, moving the
    /// cursor past it.
    pub fn nth(&mut self, n: usize) -> (r: Option<&'a T>)
        ensures
            final(self).items() == old(self).items(),
            final(self).back() == old(self).back(),
            final(self).pos() == sat_add(sat_add(old(self).pos(), n as int), 1),
            sat_add(old(self).pos(), n as int) < N ==> (r matches Some(x) && *x == old(
                self,
            ).items()[sat_add(old(self).pos(), n as int)]),
            sat_add(old(self).pos(), n as int) >= N ==> r is None,
    {
        let i = match self.forward.checked_add(n) {
            Some(i) => i,
            None => usize::MAX,
        };
        self.forward = match i.checked_add(1) {
            Some(f) => f,
            None => usize::MAX,
        };
        self.vec.get(i)
    }

    /// The next element behind the backward cursor: the last element not
    /// yet taken from the back.
    pub fn next_back(&mut self) -> (r: Option<&'a T>)
        ensures
            final(self).items() == old(self).items(),
            final(self).pos() == old(self).pos(),
            final(self).back() == sat_sub_back(old(self).back(), 1),
            0 <= old(self).back() - 1 < N ==> (r matches Some(x) && *x == old(self).items()[old(
                self,
            ).back() - 1]),
            !(0 <= old(self).back() - 1 < N) ==> r is None,
    {
        self.nth_back(0)
    }

    /// The element `n` steps behind the backward cursor, moving the cursor
    /// below it: on a fresh cursor this is the element at `N - 1 - n`.
    pub fn nth_back(&mut self, n: usize) -> (r: Option<&'a T>)
        ensures
            final(self).items() == old(self).items(),
            final(self).pos() == old(self).pos(),
            ({
                let i = sat_sub_back(old(self).back(), 1 + n as int);
                &&& final(self).back() == i
                &&& 0 <= i < N ==> (r matches Some(x) && *x == old(self).items()[i])
                &&& !(0 <= i < N) ==> r is None
            }),
    {
        let below = match self.backward.checked_sub(1) {
            Some(j) => j,
            None => isize::MIN,
        };
        let i: isize = match below.checked_sub_unsigned(n) {
            Some(j) => j,
            None => isize::MIN,
        };
        self.backward = i;
        if i < 0 {
            return None;
        }
        self.vec.get(i as usize)
    }
}

} // verus!
