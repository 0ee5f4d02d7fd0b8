use super::iter::{sat_add, sat_sub_back};
use super::Vec;
use vstd::prelude::*;

verus! {

/// A forward/backward cursor handing out mutable borrows of a vector's
/// elements.
///
/// Navigation matches [`super::iter::Iter`]: the forward cursor starts at
/// zero and yields elements first-to-last; the backward cursor counts the
/// elements not yet taken from the back, starts at `N`, and yields
/// elements last-to-first.
pub struct IterMut<'a, T, const N: usize> {
    vec: &'a mut Vec<T, N>,
    forward: usize,
    backward: isize,
}

impl<'a, T, const N: usize> IterMut<'a, T, N> {
    /// The elements the cursor currently walks over.
    pub closed spec fn items(&self) -> Seq<T> {
        self.vec@
    }

    /// The forward cursor position.
    pub closed spec fn pos(&self) -> int {
        self.forward as int
    }

    /// The backward cursor position: one past the next element to be taken
    /// from the back.
    pub closed spec fn back(&self) -> int {
        self.backward as int
    }

    /// A fresh cursor over `vec`.
    pub fn new(vec: &'a mut Vec<T, N>) -> (r: IterMut<'a, T, N>)
        requires
            N <= isize::MAX,
        ensures
            r.items() == old(vec)@,
            r.pos() == 0,
            r.back() == N as int,
    {
        IterMut { vec, forward: 0, backward: N as isize }
    }

    /// How many elements remain ahead of the forward cursor.
    pub fn len(&self) -> (r: usize)
        ensures
            r == if self.pos() <= N { N - self.pos() } else { 0int },
    {
        if self.forward >= N {
            0
        } else {
            N - self.forward
        }
    }

    /// Consumes the cursor and returns how many elements remained ahead of
    /// it.
    pub fn count(self) -> (r: usize)
        ensures
            r == if self.pos() <= N { N - self.pos() } else { 0int },
    {
        self.len()
    }

    /// A mutable borrow of the next element ahead of the forward cursor.
    pub fn next(&mut self) -> (r: Option<&mut T>)
        ensures
            final(self).pos() == sat_add(old(self).pos(), 1),
            final(self).back() == old(self).back(),
            old(self).pos() < N ==> (r matches Some(x) && *x == old(self).items()[old(self).pos()]
                && final(self).items() == old(self).items().update(old(self).pos(), *final(x))),
            old(self).pos() >= N ==> (r is None && final(self).items() == old(self).items()),
    {
        self.nth(0)
    }

    /// A mutable borrow of the element `n` steps ahead of the forward
    /// cursor, moving the cursor past it.
    pub fn nth(&mut self, n: usize) -> (r: Option<&mut T>)
        ensures
            final(self).pos() == sat_add(sat_add(old(self).pos(), n as int), 1),
            final(self).back() == old(self).back(),
            sat_add(old(self).pos(), n as int) < N ==> (r matches Some(x) && *x == old(
                self,
            ).items()[sat_add(old(self).pos(), n as int)] && final(self).items() == old(
                self,
            ).items().update(sat_add(old(self).pos(), n as int), *final(x))),
            sat_add(old(self).pos(), n as int) >= N ==> (r is None && final(self).items() == old(
                self,
            ).items()),
    {
        let i = match self.forward.checked_add(n) {
            Some(i) => i,
            None => usize::MAX,
        };
        self.forward = match i.checked_add(1) {
            Some(f) => f,
            None => usize::MAX,
        };
        self.vec.get_mut(i)
    }

    /// A mutable borrow of the next element behind the backward cursor:
    /// the last element not yet taken from the back.
    pub fn next_back(&mut self) -> (r: Option<&mut T>)
        ensures
            final(self).pos() == old(self).pos(),
            final(self).back() == sat_sub_back(old(self).back(), 1),
            0 <= old(self).back() - 1 < N ==> (r matches Some(x) && *x == old(self).items()[old(
                self,
            ).back() - 1] && final(self).items() == old(self).items().update(
                old(self).back() - 1,
                *final(x),
            )),
            !(0 <= old(self).back() - 1 < N) ==> (r is None && final(self).items() == old(
                self,
            ).items()),
    {
        self.nth_back(0)
    }

    /// A mutable borrow of the element `n` steps behind the backward
    /// cursor, moving the cursor below it: on a fresh cursor this is the
    /// element at `N - 1 - n`.
    pub fn nth_back(&mut self, n: usize) -> (r: Option<&mut T>)
        ensures
            final(self).pos() == old(self).pos(),
            ({
                let i = sat_sub_back(old(self).back(), 1 + n as int);
                &&& final(self).back() == i
                &&& 0 <= i < N ==> (r matches Some(x) && *x == old(self).items()[i]
                    && final(self).items() == old(self).items().update(i, *final(x)))
                &&& !(0 <= i < N) ==> (r is None && final(self).items() == old(self).items())
            }),
    {
        let below = match self.backward.checked_sub(1) {
            Some(j) => j,
            None => isize::MIN,
        };
        let i: isize = match below.checked_sub_unsigned(n) {
            Some(j) => j,
            None => isize::MIN,
        };
        self.backward = i;
        if i < 0 {
            return None;
        }
        self.vec.get_mut(i as usize)
    }
}

} // verus!
