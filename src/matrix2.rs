use vstd::prelude::*;

use crate::error::MathError;
use crate::model::{det2, identity_entries, lemma_mul_bound, transpose_of, Entries, ENTRY_LIMIT};

verus! {

/// A 2 by 2 matrix of integers, addressed by zero-based (row, column).
#[derive(Debug, Clone, Copy, PartialEq, Eq)]
pub struct Matrix2 {
    pub data: [[i64; 2]; 2],
}

impl Matrix2 {
    pub open spec fn at(&self, i: int, j: int) -> int {
        self.data[i][j] as int
    }

    pub open spec fn entries(&self) -> Entries {
        |i: int, j: int| self.at(i, j)
    }

    /// Every entry lies within `[-ENTRY_LIMIT, ENTRY_LIMIT]`.
    pub open spec fn in_range(&self) -> bool {
        forall|i: int, j: int|
            0 <= i < 2 && 0 <= j < 2 ==> -ENTRY_LIMIT <= #[trigger] self.at(i, j) <= ENTRY_LIMIT
    }

    /// The entry at (`row`, `col`).
    pub fn get(&self, row: usize, col: usize) -> (r: Result<i64, MathError>)
        ensures
            r is Ok <==> row < 2 && col < 2,
            r matches Ok(v) ==> v == self.at(row as int, col as int),
            r matches Err(e) ==> e == MathError::IndexOutOfRange,
    {
        if row < 2 && col < 2 {
            Ok(self.data[row][col])
        } else {
            Err(MathError::IndexOutOfRange)
        }
    }

    /// Replaces the entry at (`row`, `col`) by `value`; the others stay.
    pub fn set(&mut self, row: usize, col: usize, value: i64) -> (r: Result<(), MathError>)
        ensures
            r is Ok <==> row < 2 && col < 2,
            r matches Err(e) ==> e == MathError::IndexOutOfRange && *final(self) == *old(self),
            r is Ok ==> forall|i: int, j: int|
                0 <= i < 2 && 0 <= j < 2 ==> #[trigger] final(self).at(i, j) == if i == row && j
                    == col {
                    value as int
                } else {
                    old(self).at(i, j)
                },
    {
        if row < 2 && col < 2 {
            let mut line = self.data[row];
            line[col] = value;
            self.data[row] = line;
            Ok(())
        } else {
            Err(MathError::IndexOutOfRange)
        }
    }

    /// The zero matrix.
    pub fn new() -> (r: Matrix2)
        ensures
            forall|i: int, j: int| 0 <= i < 2 && 0 <= j < 2 ==> r.at(i, j) == 0,
    {
        Matrix2 { data: [[0, 0], [0, 0]] }
    }

    pub fn from(data: [[i64; 2]; 2]) -> (r: Matrix2)
        ensures
            r.data == data,
    {
        Matrix2 { data }
    }

    /// The identity matrix.
    pub fn identity() -> (r: Matrix2)
        ensures
            forall|i: int, j: int|
                0 <= i < 2 && 0 <= j < 2 ==> #[trigger] r.at(i, j) == identity_entries()(i, j),
    {
        Matrix2 { data: [[1, 0], [0, 1]] }
    }

    /// The matrix mirrored across its diagonal.
    pub fn transposed(&self) -> (r: Matrix2)
        ensures
            forall|i: int, j: int|
                0 <= i < 2 && 0 <= j < 2 ==> #[trigger] r.at(i, j) == transpose_of(
                    self.entries(),
                )(i, j),
    {
        let d = &self.data;
        Matrix2 {
            data: [
                [d[0][0], d[1][0]],
                [d[0][1], d[1][1]],
            ],
        }
    }

    /// `a·d − b·c`.
    pub fn determinant(&self) -> (r: i64)
        requires
            self.in_range(),
        ensures
            r == det2(self.entries()),
            -2 * ENTRY_LIMIT * ENTRY_LIMIT <= r <= 2 * ENTRY_LIMIT * ENTRY_LIMIT,
    {
        let ghost l = ENTRY_LIMIT as int;
        let a = self.data[0][0];
        let b = self.data[0][1];
        let c = self.data[1][0];
        let d = self.data[1][1];
        proof {
            assert((self.entries())(0, 0) == a);
            assert((self.entries())(0, 1) == b);
            assert((self.entries())(1, 0) == c);
            assert((self.entries())(1, 1) == d);
            lemma_mul_bound(a as int, d as int, l, l);
            lemma_mul_bound(c as int, b as int, l, l);
        }
        a * d - c * b
    }
}

} // verus!
