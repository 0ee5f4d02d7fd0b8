use vstd::prelude::*;

verus! {

/// Multiplicative identity, `1`.
pub trait One: Sized {
    /// The value that [`One::one`] returns.
    spec fn one_spec() -> Self;

    /// Returns the multiplicative identity, `1`.
    fn one() -> (r: Self)
        ensures
            r == Self::one_spec(),
    ;

    /// Returns `true` if equal to `1`.
    fn is_one(&self) -> (r: bool)
        ensures
            r == (*self == Self::one_spec()),
    ;
}

impl One for i8 {
    open spec fn one_spec() -> i8 {
        1
    }

    fn one() -> i8 {
        1
    }

    fn is_one(&self) -> bool {
        *self == 1
    }
}

impl One for i16 {
    open spec fn one_spec() -> i16 {
        1
    }

    fn one() -> i16 {
        1
    }

    fn is_one(&self) -> bool {
        *self == 1
    }
}

impl One for i32 {
    open spec fn one_spec() -> i32 {
        1
    }

    fn one() -> i32 {
        1
    }

    fn is_one(&self) -> bool {
        *self == 1
    }
}

impl One for i64 {
    open spec fn one_spec() -> i64 {
        1
    }

    fn one() -> i64 {
        1
    }

    fn is_one(&self) -> bool {
        *self == 1
    }
}

impl One for i128 {
    open spec fn one_spec() -> i128 {
        1
    }

    fn one() -> i128 {
        1
    }

    fn is_one(&self) -> bool {
        *self == 1
    }
}

impl One for isize {
    open spec fn one_spec() -> isize {
        1
    }

    fn one() -> isize {
        1
    }

    fn is_one(&self) -> bool {
        *self == 1
    }
}

impl One for u8 {
    open spec fn one_spec() -> u8 {
        1
    }

    fn one() -> u8 {
        1
    }

    fn is_one(&self) -> bool {
        *self == 1
    }
}

impl One for u16 {
    open spec fn one_spec() -> u16 {
        1
    }

    fn one() -> u16 {
        1
    }

    fn is_one(&self) -> bool {
        *self == 1
    }
}

impl One for u32 {
    open spec fn one_spec() -> u32 {
        1
    }

    fn one() -> u32 {
        1
    }

    fn is_one(&self) -> bool {
        *self == 1
    }
}

impl One for u64 {
    open spec fn one_spec() -> u64 {
        1
    }

    fn one() -> u64 {
        1
    }

    fn is_one(&self) -> bool {
        *self == 1
    }
}

impl One for u128 {
    open spec fn one_spec() -> u128 {
        1
    }

    fn one() -> u128 {
        1
    }

    fn is_one(&self) -> bool {
        *self == 1
    }
}

impl One for usize {
    open spec fn one_spec() -> usize {
        1
    }

    fn one() -> usize {
        1
    }

    fn is_one(&self) -> bool {
        *self == 1
    }
}

/// Returns the multiplicative identity, `1`.
pub fn one<T: One>() -> (r: T)
    ensures
        r == T::one_spec(),
{
    T::one()
}

} // verus!
