use vstd::prelude::*;

use crate::error::MathError;
use crate::matrix3::Matrix3;
use crate::model::{
    adjugate4, apply4, cofactor4, det2, det3, det4, identity_entries, lemma_det3_agree,
    lemma_mul_bound, minor4, product4, skip, skip_index, submatrix_of, transpose_of, Entries,
    COORD_LIMIT, ENTRY_LIMIT,
};
use crate::point::Point;
use crate::vector::Vector;

verus! {

/// A 4 by 4 matrix of integers, addressed by zero-based (row, column): the
/// matrix of an affine transform in homogeneous coordinates.
#[derive(Debug, Clone, Copy, PartialEq, Eq)]
pub struct Matrix4 {
    pub data: [[i64; 4]; 4],
}

/// The inverse of a matrix, held exactly as its adjugate (the transposed
/// matrix of cofactors) over its determinant.
#[derive(Debug, Clone, Copy, PartialEq, Eq)]
pub struct Inverse4 {
    pub adjugate: Matrix4,
    pub determinant: i64,
}

impl Matrix4 {
    pub open spec fn at(&self, i: int, j: int) -> int {
        self.data[i][j] as int
    }

    pub open spec fn entries(&self) -> Entries {
        |i: int, j: int| self.at(i, j)
    }

    /// Every entry lies within `[-ENTRY_LIMIT, ENTRY_LIMIT]`.
    pub open spec fn in_range(&self) -> bool {
        forall|i: int, j: int|
            0 <= i < 4 && 0 <= j < 4 ==> -ENTRY_LIMIT <= #[trigger] self.at(i, j) <= ENTRY_LIMIT
    }

    /// The entry at (`row`, `col`).
    pub fn get(&self, row: usize, col: usize) -> (r: Result<i64, MathError>)
        ensures
            r is Ok <==> row < 4 && col < 4,
            r matches Ok(v) ==> v == self.at(row as int, col as int),
            r matches Err(e) ==> e == MathError::IndexOutOfRange,
    {
        if row < 4 && col < 4 {
            Ok(self.data[row][col])
        } else {
            Err(MathError::IndexOutOfRange)
        }
    }

    /// Replaces the entry at (`row`, `col`) by `value`; the others stay.
    pub fn set(&mut self, row: usize, col: usize, value: i64) -> (r: Result<(), MathError>)
        ensures
            r is Ok <==> row < 4 && col < 4,
            r matches Err(e) ==> e == MathError::IndexOutOfRange && *final(self) == *old(self),
            r is Ok ==> forall|i: int, j: int|
                0 <= i < 4 && 0 <= j < 4 ==> #[trigger] final(self).at(i, j) == if i == row && j
                    == col {
                    value as int
                } else {
                    old(self).at(i, j)
                },
    {
        if row < 4 && col < 4 {
            let mut line = self.data[row];
            line[col] = value;
            self.data[row] = line;
            Ok(())
        } else {
            Err(MathError::IndexOutOfRange)
        }
    }

    /// Whether every entry lies within `[-ENTRY_LIMIT, ENTRY_LIMIT]`, as the
    /// determinant, the inverse and the products ask.
    pub fn within_limits(&self) -> (r: bool)
        ensures
            r == self.in_range(),
    {
        let mut i: usize = 0;
        while i < 4
            invariant
                i <= 4,
                forall|a: int, b: int|
                    0 <= a < i && 0 <= b < 4 ==> -ENTRY_LIMIT <= #[trigger] self.at(a, b)
                        <= ENTRY_LIMIT,
            decreases 4 - i,
        {
            let mut j: usize = 0;
            while j < 4
                invariant
                    i < 4,
                    j <= 4,
                    forall|a: int, b: int|
                        0 <= a < i && 0 <= b < 4 ==> -ENTRY_LIMIT <= #[trigger] self.at(a, b)
                            <= ENTRY_LIMIT,
                    forall|b: int|
                        0 <= b < j ==> -ENTRY_LIMIT <= #[trigger] self.at(i as int, b)
                            <= ENTRY_LIMIT,
                decreases 4 - j,
            {
                let v = self.data[i][j];
                if v < -ENTRY_LIMIT || v > ENTRY_LIMIT {
                    proof {
                        assert(self.at(i as int, j as int) == v);
                    }
                    return false;
                }
                j += 1;
            }
            i += 1;
        }
        true
    }

    /// The zero matrix.
    pub fn new() -> (r: Matrix4)
        ensures
            forall|i: int, j: int| 0 <= i < 4 && 0 <= j < 4 ==> r.at(i, j) == 0,
    {
        Matrix4 { data: [[0, 0, 0, 0], [0, 0, 0, 0], [0, 0, 0, 0], [0, 0, 0, 0]] }
    }

    pub fn from(data: [[i64; 4]; 4]) -> (r: Matrix4)
        ensures
            r.data == data,
    {
        Matrix4 { data }
    }

    /// The identity matrix.
    pub fn identity() -> (r: Matrix4)
        ensures
            forall|i: int, j: int|
                0 <= i < 4 && 0 <= j < 4 ==> #[trigger] r.at(i, j) == identity_entries()(i, j),
    {
        Matrix4 { data: [[1, 0, 0, 0], [0, 1, 0, 0], [0, 0, 1, 0], [0, 0, 0, 1]] }
    }

    fn cut(&self, row: usize, col: usize) -> (r: Matrix3)
        requires
            row < 4,
            col < 4,
        ensures
            forall|i: int, j: int|
                0 <= i < 3 && 0 <= j < 3 ==> #[trigger] r.at(i, j) == self.at(
                    skip(i, row as int),
                    skip(j, col as int),
                ),
    {
        let r0 = skip_index(0, row);
        let r1 = skip_index(1, row);
        let r2 = skip_index(2, row);
        let c0 = skip_index(0, col);
        let c1 = skip_index(1, col);
        let c2 = skip_index(2, col);
        let d = &self.data;
        Matrix3 {
            data: [
                [d[r0][c0], d[r0][c1], d[r0][c2]],
                [d[r1][c0], d[r1][c1], d[r1][c2]],
                [d[r2][c0], d[r2][c1], d[r2][c2]],
            ],
        }
    }

    /// The 3 by 3 matrix left after deleting row `row` and column `col`.
    pub fn submatrix(&self, row: usize, col: usize) -> (r: Result<Matrix3, MathError>)
        ensures
            r is Ok <==> row < 4 && col < 4,
            r matches Ok(s) ==> forall|i: int, j: int|
                0 <= i < 3 && 0 <= j < 3 ==> #[trigger] s.at(i, j) == self.at(
                    skip(i, row as int),
                    skip(j, col as int),
                ),
            r matches Err(e) ==> e == MathError::IndexOutOfRange,
    {
        if row < 4 && col < 4 {
            Ok(self.cut(row, col))
        } else {
            Err(MathError::IndexOutOfRange)
        }
    }

    /// The determinant of the submatrix at (`row`, `col`).
    pub fn minor(&self, row: usize, col: usize) -> (r: i64)
        requires
            row < 4,
            col < 4,
            self.in_range(),
        ensures
            r == minor4(self.entries(), row as int, col as int),
            -6 * ENTRY_LIMIT * ENTRY_LIMIT * ENTRY_LIMIT <= r <= 6 * ENTRY_LIMIT * ENTRY_LIMIT
                * ENTRY_LIMIT,
    {
        let s = self.cut(row, col);
        proof {
            assert forall|i: int, j: int| 0 <= i < 3 && 0 <= j < 3 implies -ENTRY_LIMIT
                <= #[trigger] s.at(i, j) <= ENTRY_LIMIT by {
                assert(self.at(skip(i, row as int), skip(j, col as int)) == s.at(i, j));
            }
            let g = submatrix_of(self.entries(), row as int, col as int);
            assert forall|i: int, j: int| 0 <= i < 3 && 0 <= j < 3 implies #[trigger] (s.entries())(
                i,
                j,
            ) == g(i, j) by {
                assert(s.at(i, j) == self.at(skip(i, row as int), skip(j, col as int)));
            }
            lemma_det3_agree(s.entries(), g);
        }
        s.determinant()
    }

    /// The minor at (`row`, `col`), negated where `row + col` is odd.
    pub fn cofactor(&self, row: usize, col: usize) -> (r: i64)
        requires
            row < 4,
            col < 4,
            self.in_range(),
        ensures
            r == cofactor4(self.entries(), row as int, col as int),
            -6 * ENTRY_LIMIT * ENTRY_LIMIT * ENTRY_LIMIT <= r <= 6 * ENTRY_LIMIT * ENTRY_LIMIT
                * ENTRY_LIMIT,
    {
        let minor = self.minor(row, col);
        if (row + col) % 2 == 1 {
            -minor
        } else {
            minor
        }
    }

    /// Cofactor expansion along row 0.
    pub fn determinant(&self) -> (r: i64)
        requires
            self.in_range(),
        ensures
            r == det4(self.entries()),
    {
        let ghost l = ENTRY_LIMIT as int;
        let a0 = self.data[0][0];
        let a1 = self.data[0][1];
        let a2 = self.data[0][2];
        let a3 = self.data[0][3];
        let c0 = self.cofactor(0, 0);
        let c1 = self.cofactor(0, 1);
        let c2 = self.cofactor(0, 2);
        let c3 = self.cofactor(0, 3);
        proof {
            assert(self.at(0, 0) == a0);
            assert(self.at(0, 1) == a1);
            assert(self.at(0, 2) == a2);
            assert(self.at(0, 3) == a3);
            lemma_mul_bound(a0 as int, c0 as int, l, 6 * l * l * l);
            lemma_mul_bound(a1 as int, c1 as int, l, 6 * l * l * l);
            lemma_mul_bound(a2 as int, c2 as int, l, 6 * l * l * l);
            lemma_mul_bound(a3 as int, c3 as int, l, 6 * l * l * l);
        }
        a0 * c0 + a1 * c1 + a2 * c2 + a3 * c3
    }

    /// Whether the matrix has an inverse: its determinant is not zero.
    pub fn is_invertible(&self) -> (r: bool)
        requires
            self.in_range(),
        ensures
            r == (det4(self.entries()) != 0),
    {
        self.determinant() != 0
    }

    /// The inverse, as the adjugate over the determinant: entry (`col`, `row`)
    /// of the adjugate is the cofactor at (`row`, `col`).
    pub fn inverse(&self) -> (r: Result<Inverse4, MathError>)
        requires
            self.in_range(),
        ensures
            r is Ok <==> det4(self.entries()) != 0,
            r matches Ok(v) ==> v.determinant == det4(self.entries()) && forall|i: int, j: int|
                0 <= i < 4 && 0 <= j < 4 ==> #[trigger] v.adjugate.at(i, j) == adjugate4(
                    self.entries(),
                )(i, j),
            r matches Err(e) ==> e == MathError::NotInvertible,
    {
        let det = self.determinant();
        if det == 0 {
            return Err(MathError::NotInvertible);
        }
        let adjugate = Matrix4 {
            data: [
                [
                    self.cofactor(0, 0),
                    self.cofactor(1, 0),
                    self.cofactor(2, 0),
                    self.cofactor(3, 0),
                ],
                [
                    self.cofactor(0, 1),
                    self.cofactor(1, 1),
                    self.cofactor(2, 1),
                    self.cofactor(3, 1),
                ],
                [
                    self.cofactor(0, 2),
                    self.cofactor(1, 2),
                    self.cofactor(2, 2),
                    self.cofactor(3, 2),
                ],
                [
                    self.cofactor(0, 3),
                    self.cofactor(1, 3),
                    self.cofactor(2, 3),
                    self.cofactor(3, 3),
                ],
            ],
        };
        Ok(Inverse4 { adjugate, determinant: det })
    }
    /// The matrix mirrored across its diagonal.
    pub fn transposed(&self) -> (r: Matrix4)
        ensures
            forall|i: int, j: int|
                0 <= i < 4 && 0 <= j < 4 ==> #[trigger] r.at(i, j) == transpose_of(
                    self.entries(),
                )(i, j),
    {
        let d = &self.data;
        Matrix4 {
            data: [
                [d[0][0], d[1][0], d[2][0], d[3][0]],
                [d[0][1], d[1][1], d[2][1], d[3][1]],
                [d[0][2], d[1][2], d[2][2], d[3][2]],
                [d[0][3], d[1][3], d[2][3], d[3][3]],
            ],
        }
    }

    /// Row `i` of this matrix times column `j` of `rhs`.
    fn row_by_col(&self, rhs: &Matrix4, i: usize, j: usize) -> (r: i64)
        requires
            self.in_range(),
            rhs.in_range(),
            i < 4,
            j < 4,
        ensures
            r == product4(self.entries(), rhs.entries())(i as int, j as int),
            -4 * ENTRY_LIMIT * ENTRY_LIMIT <= r <= 4 * ENTRY_LIMIT * ENTRY_LIMIT,
    {
        let ghost l = ENTRY_LIMIT as int;
        let a = &self.data[i];
        let b = &rhs.data;
        proof {
            assert(self.at(i as int, 0) == a[0] && self.at(i as int, 1) == a[1]);
            assert(self.at(i as int, 2) == a[2] && self.at(i as int, 3) == a[3]);
            assert(rhs.at(0, j as int) == b[0][j as int] && rhs.at(1, j as int) == b[1][j as int]);
            assert(rhs.at(2, j as int) == b[2][j as int] && rhs.at(3, j as int) == b[3][j as int]);
            lemma_mul_bound(a[0] as int, b[0][j as int] as int, l, l);
            lemma_mul_bound(a[1] as int, b[1][j as int] as int, l, l);
            lemma_mul_bound(a[2] as int, b[2][j as int] as int, l, l);
            lemma_mul_bound(a[3] as int, b[3][j as int] as int, l, l);
        }
        a[0] * b[0][j] + a[1] * b[1][j] + a[2] * b[2][j] + a[3] * b[3][j]
    }

    /// The matrix product: entry (i, j) is row i of this matrix times column
    /// j of `rhs`. Applied to a tuple, the product applies `rhs` first.
    pub fn mul_matrix(&self, rhs: &Matrix4) -> (r: Matrix4)
        requires
            self.in_range(),
            rhs.in_range(),
        ensures
            forall|i: int, j: int|
                0 <= i < 4 && 0 <= j < 4 ==> #[trigger] r.at(i, j) == product4(
                    self.entries(),
                    rhs.entries(),
                )(i, j),
    {
        Matrix4 {
            data: [
                [
                    self.row_by_col(rhs, 0, 0),
                    self.row_by_col(rhs, 0, 1),
                    self.row_by_col(rhs, 0, 2),
                    self.row_by_col(rhs, 0, 3),
                ],
                [
                    self.row_by_col(rhs, 1, 0),
                    self.row_by_col(rhs, 1, 1),
                    self.row_by_col(rhs, 1, 2),
                    self.row_by_col(rhs, 1, 3),
                ],
                [
                    self.row_by_col(rhs, 2, 0),
                    self.row_by_col(rhs, 2, 1),
                    self.row_by_col(rhs, 2, 2),
                    self.row_by_col(rhs, 2, 3),
                ],
                [
                    self.row_by_col(rhs, 3, 0),
                    self.row_by_col(rhs, 3, 1),
                    self.row_by_col(rhs, 3, 2),
                    self.row_by_col(rhs, 3, 3),
                ],
            ],
        }
    }

    /// Row `i` applied to the column (x, y, z, w).
    fn apply_row(&self, i: usize, x: i64, y: i64, z: i64, w: i64) -> (r: i64)
        requires
            self.in_range(),
            i < 4,
            -COORD_LIMIT <= x <= COORD_LIMIT,
            -COORD_LIMIT <= y <= COORD_LIMIT,
            -COORD_LIMIT <= z <= COORD_LIMIT,
            -COORD_LIMIT <= w <= COORD_LIMIT,
        ensures
            r == apply4(self.entries(), i as int, x as int, y as int, z as int, w as int),
    {
        let ghost l = ENTRY_LIMIT as int;
        let ghost c = COORD_LIMIT as int;
        let a = &self.data[i];
        proof {
            assert(self.at(i as int, 0) == a[0] && self.at(i as int, 1) == a[1]);
            assert(self.at(i as int, 2) == a[2] && self.at(i as int, 3) == a[3]);
            lemma_mul_bound(a[0] as int, x as int, l, c);
            lemma_mul_bound(a[1] as int, y as int, l, c);
            lemma_mul_bound(a[2] as int, z as int, l, c);
            lemma_mul_bound(a[3] as int, w as int, l, c);
        }
        a[0] * x + a[1] * y + a[2] * z + a[3] * w
    }

    /// The transform applied to a point: rows 0 to 2 of the matrix times the
    /// column (x, y, z, w) of `p`. The result is a point, with `w` = 1.
    pub fn mul_point(&self, p: &Point) -> (r: Point)
        requires
            self.in_range(),
            p.in_range(),
        ensures
            r.x == apply4(self.entries(), 0, p.x as int, p.y as int, p.z as int, p.w as int),
            r.y == apply4(self.entries(), 1, p.x as int, p.y as int, p.z as int, p.w as int),
            r.z == apply4(self.entries(), 2, p.x as int, p.y as int, p.z as int, p.w as int),
            r.w == 1,
    {
        Point::new(
            self.apply_row(0, p.x, p.y, p.z, p.w),
            self.apply_row(1, p.x, p.y, p.z, p.w),
            self.apply_row(2, p.x, p.y, p.z, p.w),
        )
    }

    /// The transform applied to a vector: rows 0 to 2 of the matrix times the
    /// column (x, y, z, w) of `v`. The result is a vector, with `w` = 0.
    pub fn mul_vector(&self, v: &Vector) -> (r: Vector)
        requires
            self.in_range(),
            v.in_range(),
        ensures
            r.x == apply4(self.entries(), 0, v.x as int, v.y as int, v.z as int, v.w as int),
            r.y == apply4(self.entries(), 1, v.x as int, v.y as int, v.z as int, v.w as int),
            r.z == apply4(self.entries(), 2, v.x as int, v.y as int, v.z as int, v.w as int),
            r.w == 0,
    {
        Vector::new(
            self.apply_row(0, v.x, v.y, v.z, v.w),
            self.apply_row(1, v.x, v.y, v.z, v.w),
            self.apply_row(2, v.x, v.y, v.z, v.w),
        )
    }
}

/// Transposing a matrix twice gives the matrix back.
pub proof fn lemma_transpose_twice(m: Matrix4)
    ensures
        forall|i: int, j: int|
            0 <= i < 4 && 0 <= j < 4 ==> #[trigger] transpose_of(transpose_of(m.entries()))(i, j)
                == m.at(i, j),
{
}

/// The identity is neutral for the matrix product, on either side.
pub proof fn lemma_identity_neutral(m: Matrix4)
    ensures
        forall|i: int, j: int|
            0 <= i < 4 && 0 <= j < 4 ==> #[trigger] product4(identity_entries(), m.entries())(i, j)
                == m.at(i, j),
        forall|i: int, j: int|
            0 <= i < 4 && 0 <= j < 4 ==> #[trigger] product4(m.entries(), identity_entries())(i, j)
                == m.at(i, j),
{
    let e = identity_entries();
    assert forall|i: int, j: int| 0 <= i < 4 && 0 <= j < 4 implies #[trigger] product4(
        e,
        m.entries(),
    )(i, j) == m.at(i, j) by {
        assert(e(i, 0) == (if i == 0 { 1int } else { 0int }));
        assert(e(i, 1) == (if i == 1 { 1int } else { 0int }));
        assert(e(i, 2) == (if i == 2 { 1int } else { 0int }));
        assert(e(i, 3) == (if i == 3 { 1int } else { 0int }));
    }
}

/// The determinant of the identity is 1.
pub proof fn lemma_identity_determinant()
    ensures
        det4(identity_entries()) == 1,
{
    let e = identity_entries();
    let s = submatrix_of(e, 0, 0);
    let t = submatrix_of(s, 0, 0);
    assert(e(2, 2) == 1 && e(3, 3) == 1 && e(3, 2) == 0 && e(2, 3) == 0);
    assert(s(1, 1) == 1 && s(2, 2) == 1 && s(2, 1) == 0 && s(1, 2) == 0);
    assert(t(0, 0) == 1 && t(1, 1) == 1 && t(1, 0) == 0 && t(0, 1) == 0);
    assert(det2(t) == 1);
    assert(det3(s) == 1);
}

} // verus!
