use vstd::prelude::*;

use crate::error::MathError;
use crate::matrix2::Matrix2;
use crate::model::{
    cofactor3, det2, det3, identity_entries, lemma_mul_bound, minor3, skip, skip_index,
    submatrix_of, transpose_of, Entries, ENTRY_LIMIT,
};

verus! {

/// A 3 by 3 matrix of integers, addressed by zero-based (row, column).
#[derive(Debug, Clone, Copy, PartialEq, Eq)]
pub struct Matrix3 {
    pub data: [[i64; 3]; 3],
}

impl Matrix3 {
    pub open spec fn at(&self, i: int, j: int) -> int {
        self.data[i][j] as int
    }

    pub open spec fn entries(&self) -> Entries {
        |i: int, j: int| self.at(i, j)
    }

    /// Every entry lies within `[-ENTRY_LIMIT, ENTRY_LIMIT]`.
    pub open spec fn in_range(&self) -> bool {
        forall|i: int, j: int|
            0 <= i < 3 && 0 <= j < 3 ==> -ENTRY_LIMIT <= #[trigger] self.at(i, j) <= ENTRY_LIMIT
    }

    /// The entry at (`row`, `col`).
    pub fn get(&self, row: usize, col: usize) -> (r: Result<i64, MathError>)
        ensures
            r is Ok <==> row < 3 && col < 3,
            r matches Ok(v) ==> v == self.at(row as int, col as int),
            r matches Err(e) ==> e == MathError::IndexOutOfRange,
    {
        if row < 3 && col < 3 {
            Ok(self.data[row][col])
        } else {
            Err(MathError::IndexOutOfRange)
        }
    }

    /// Replaces the entry at (`row`, `col`) by `value`; the others stay.
    pub fn set(&mut self, row: usize, col: usize, value: i64) -> (r: Result<(), MathError>)
        ensures
            r is Ok <==> row < 3 && col < 3,
            r matches Err(e) ==> e == MathError::IndexOutOfRange && *final(self) == *old(self),
            r is Ok ==> forall|i: int, j: int|
                0 <= i < 3 && 0 <= j < 3 ==> #[trigger] final(self).at(i, j) == if i == row && j
                    == col {
                    value as int
                } else {
                    old(self).at(i, j)
                },
    {
        if row < 3 && col < 3 {
            let mut line = self.data[row];
            line[col] = value;
            self.data[row] = line;
            Ok(())
        } else {
            Err(MathError::IndexOutOfRange)
        }
    }

    /// The zero matrix.
    pub fn new() -> (r: Matrix3)
        ensures
            forall|i: int, j: int| 0 <= i < 3 && 0 <= j < 3 ==> r.at(i, j) == 0,
    {
        Matrix3 { data: [[0, 0, 0], [0, 0, 0], [0, 0, 0]] }
    }

    pub fn from(data: [[i64; 3]; 3]) -> (r: Matrix3)
        ensures
            r.data == data,
    {
        Matrix3 { data }
    }

    /// The identity matrix.
    pub fn identity() -> (r: Matrix3)
        ensures
            forall|i: int, j: int|
                0 <= i < 3 && 0 <= j < 3 ==> #[trigger] r.at(i, j) == identity_entries()(i, j),
    {
        Matrix3 { data: [[1, 0, 0], [0, 1, 0], [0, 0, 1]] }
    }

    /// The matrix mirrored across its diagonal.
    pub fn transposed(&self) -> (r: Matrix3)
        ensures
            forall|i: int, j: int|
                0 <= i < 3 && 0 <= j < 3 ==> #[trigger] r.at(i, j) == transpose_of(
                    self.entries(),
                )(i, j),
    {
        let d = &self.data;
        Matrix3 {
            data: [
                [d[0][0], d[1][0], d[2][0]],
                [d[0][1], d[1][1], d[2][1]],
                [d[0][2], d[1][2], d[2][2]],
            ],
        }
    }

    fn cut(&self, row: usize, col: usize) -> (r: Matrix2)
        requires
            row < 3,
            col < 3,
        ensures
            forall|i: int, j: int|
                0 <= i < 2 && 0 <= j < 2 ==> #[trigger] r.at(i, j) == self.at(
                    skip(i, row as int),
                    skip(j, col as int),
                ),
    {
        let r0 = skip_index(0, row);
        let r1 = skip_index(1, row);
        let c0 = skip_index(0, col);
        let c1 = skip_index(1, col);
        let d = &self.data;
        Matrix2 { data: [[d[r0][c0], d[r0][c1]], [d[r1][c0], d[r1][c1]]] }
    }

    /// The 2 by 2 matrix left after deleting row `row` and column `col`.
    pub fn submatrix(&self, row: usize, col: usize) -> (r: Result<Matrix2, MathError>)
        ensures
            r is Ok <==> row < 3 && col < 3,
            r matches Ok(s) ==> forall|i: int, j: int|
                0 <= i < 2 && 0 <= j < 2 ==> #[trigger] s.at(i, j) == self.at(
                    skip(i, row as int),
                    skip(j, col as int),
                ),
            r matches Err(e) ==> e == MathError::IndexOutOfRange,
    {
        if row < 3 && col < 3 {
            Ok(self.cut(row, col))
        } else {
            Err(MathError::IndexOutOfRange)
        }
    }

    /// The determinant of the submatrix at (`row`, `col`).
    pub fn minor(&self, row: usize, col: usize) -> (r: i64)
        requires
            row < 3,
            col < 3,
            self.in_range(),
        ensures
            r == minor3(self.entries(), row as int, col as int),
            -2 * ENTRY_LIMIT * ENTRY_LIMIT <= r <= 2 * ENTRY_LIMIT * ENTRY_LIMIT,
    {
        let s = self.cut(row, col);
        proof {
            assert forall|i: int, j: int| 0 <= i < 2 && 0 <= j < 2 implies -ENTRY_LIMIT
                <= #[trigger] s.at(i, j) <= ENTRY_LIMIT by {
                assert(self.at(skip(i, row as int), skip(j, col as int)) == s.at(i, j));
            }
        }
        let r = s.determinant();
        proof {
            assert(s.at(0, 0) == self.at(skip(0, row as int), skip(0, col as int)));
            assert(s.at(0, 1) == self.at(skip(0, row as int), skip(1, col as int)));
            assert(s.at(1, 0) == self.at(skip(1, row as int), skip(0, col as int)));
            assert(s.at(1, 1) == self.at(skip(1, row as int), skip(1, col as int)));
            assert(det2(s.entries()) == det2(submatrix_of(self.entries(), row as int, col as int)));
        }
        r
    }

    /// The minor at (`row`, `col`), negated where `row + col` is odd.
    pub fn cofactor(&self, row: usize, col: usize) -> (r: i64)
        requires
            row < 3,
            col < 3,
            self.in_range(),
        ensures
            r == cofactor3(self.entries(), row as int, col as int),
            -2 * ENTRY_LIMIT * ENTRY_LIMIT <= r <= 2 * ENTRY_LIMIT * ENTRY_LIMIT,
    {
        let minor = self.minor(row, col);
        if (row + col) % 2 == 1 {
            -minor
        } else {
            minor
        }
    }

    /// Cofactor expansion along row 0.
    pub fn determinant(&self) -> (r: i64)
        requires
            self.in_range(),
        ensures
            r == det3(self.entries()),
            -6 * ENTRY_LIMIT * ENTRY_LIMIT * ENTRY_LIMIT <= r <= 6 * ENTRY_LIMIT * ENTRY_LIMIT
                * ENTRY_LIMIT,
    {
        let ghost l = ENTRY_LIMIT as int;
        let a0 = self.data[0][0];
        let a1 = self.data[0][1];
        let a2 = self.data[0][2];
        let c0 = self.cofactor(0, 0);
        let c1 = self.cofactor(0, 1);
        let c2 = self.cofactor(0, 2);
        proof {
            assert(self.at(0, 0) == a0);
            assert(self.at(0, 1) == a1);
            assert(self.at(0, 2) == a2);
            lemma_mul_bound(a0 as int, c0 as int, l, 2 * l * l);
            lemma_mul_bound(a1 as int, c1 as int, l, 2 * l * l);
            lemma_mul_bound(a2 as int, c2 as int, l, 2 * l * l);
        }
        a0 * c0 + a1 * c1 + a2 * c2
    }
}

} // verus!
