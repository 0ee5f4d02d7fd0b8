use crate::identity::{One, Zero};
use vstd::prelude::*;

verus! {

/// A row-major matrix of `ROWS` by `COLUMNS` elements.
#[derive(Clone, Copy)]
#[verifier::ext_equal]
pub struct Matrix<T, const ROWS: usize, const COLUMNS: usize> {
    elements: [[T; COLUMNS]; ROWS],
}

impl<T, const ROWS: usize, const COLUMNS: usize> View for Matrix<T, ROWS, COLUMNS> {
    type V = Seq<Seq<T>>;

    closed spec fn view(&self) -> Seq<Seq<T>> {
        Seq::new(ROWS as nat, |i: int| self.elements@[i]@)
    }
}

impl<T, const ROWS: usize, const COLUMNS: usize> Matrix<T, ROWS, COLUMNS> {
    /// Get the number of rows in this matrix.
    pub fn rows(&self) -> (r: usize)
        ensures
            r == ROWS,
    {
        ROWS
    }

    /// Get the number of columns in this matrix.
    pub fn columns(&self) -> (r: usize)
        ensures
            r == COLUMNS,
    {
        COLUMNS
    }

    /// Creates a new matrix with all elements set to the given value.
    pub fn splat(value: T) -> (r: Matrix<T, ROWS, COLUMNS>)
        where
            T: Copy,
        ensures
            r@.len() == ROWS,
            forall|i: int, j: int|
                0 <= i < ROWS && 0 <= j < COLUMNS ==> r@[i].len() == COLUMNS && #[trigger] r@[i][j]
                    == value,
    {
        let row: [T; COLUMNS] = [value; COLUMNS];
        Matrix { elements: [row; ROWS] }
    }

    /// Creates a new matrix with all elements set to zero.
    pub fn zero() -> (r: Matrix<T, ROWS, COLUMNS>)
        where
            T: Copy + Zero,
        ensures
            r@.len() == ROWS,
            forall|i: int, j: int|
                0 <= i < ROWS && 0 <= j < COLUMNS ==> r@[i].len() == COLUMNS && #[trigger] r@[i][j]
                    == T::zero_spec(),
    {
        Self::splat(T::zero())
    }

    /// Creates a new matrix with all elements set to one.
    pub fn one() -> (r: Matrix<T, ROWS, COLUMNS>)
        where
            T: Copy + One,
        ensures
            r@.len() == ROWS,
            forall|i: int, j: int|
                0 <= i < ROWS && 0 <= j < COLUMNS ==> r@[i].len() == COLUMNS && #[trigger] r@[i][j]
                    == T::one_spec(),
    {
        Self::splat(T::one())
    }
}

} // verus!
