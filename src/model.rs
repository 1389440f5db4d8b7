//! Mathematical model of square matrices: a matrix is read as a function
//! from (row, column) to an unbounded integer, and the determinant is
//! defined by cofactor expansion along row 0, as the executable code computes it.
use vstd::prelude::*;

verus! {

/// The entries of a matrix, as a function of (row, column).
pub type Entries = spec_fn(int, int) -> int;

/// The largest magnitude an entry may have for determinants, cofactors and
/// products to be computed without overflow.
pub const ENTRY_LIMIT: i64 = 16384;

/// The largest magnitude a coordinate of a point or vector may have for a
/// matrix to be applied to it without overflow.
pub const COORD_LIMIT: i64 = 1099511627776;

/// Index `i` of a submatrix, read in the matrix it was cut from when row or
/// column `k` was deleted.
pub open spec fn skip(i: int, k: int) -> int {
    if i < k {
        i
    } else {
        i + 1
    }
}

/// The matrix `f` with row `r` and column `c` deleted.
pub open spec fn submatrix_of(f: Entries, r: int, c: int) -> Entries {
    |i: int, j: int| f(skip(i, r), skip(j, c))
}

/// `x` negated where `r + c` is odd.
pub open spec fn signed(r: int, c: int, x: int) -> int {
    if (r + c) % 2 == 1 {
        -x
    } else {
        x
    }
}

/// `a·d − c·b` for the matrix [[a, b], [c, d]].
pub open spec fn det2(f: Entries) -> int {
    f(0, 0) * f(1, 1) - f(1, 0) * f(0, 1)
}

/// The determinant of the 3 by 3 matrix `f` with row `r` and column `c` deleted.
pub open spec fn minor3(f: Entries, r: int, c: int) -> int {
    det2(submatrix_of(f, r, c))
}

/// The minor at (`r`, `c`), negated where `r + c` is odd.
pub open spec fn cofactor3(f: Entries, r: int, c: int) -> int {
    signed(r, c, minor3(f, r, c))
}

/// Cofactor expansion of a 3 by 3 matrix along row 0.
pub open spec fn det3(f: Entries) -> int {
    f(0, 0) * cofactor3(f, 0, 0) + f(0, 1) * cofactor3(f, 0, 1) + f(0, 2) * cofactor3(f, 0, 2)
}

/// The determinant of the 4 by 4 matrix `f` with row `r` and column `c` deleted.
pub open spec fn minor4(f: Entries, r: int, c: int) -> int {
    det3(submatrix_of(f, r, c))
}

/// The minor at (`r`, `c`), negated where `r + c` is odd.
pub open spec fn cofactor4(f: Entries, r: int, c: int) -> int {
    signed(r, c, minor4(f, r, c))
}

/// Cofactor expansion of a 4 by 4 matrix along row 0.
pub open spec fn det4(f: Entries) -> int {
    f(0, 0) * cofactor4(f, 0, 0) + f(0, 1) * cofactor4(f, 0, 1) + f(0, 2) * cofactor4(f, 0, 2)
        + f(0, 3) * cofactor4(f, 0, 3)
}

/// Row `i` of the 4 by 4 matrix `f` applied to the column (x, y, z, w).
pub open spec fn apply4(f: Entries, i: int, x: int, y: int, z: int, w: int) -> int {
    f(i, 0) * x + f(i, 1) * y + f(i, 2) * z + f(i, 3) * w
}

/// The product of two 4 by 4 matrices: row of `f` by column of `g`.
pub open spec fn product4(f: Entries, g: Entries) -> Entries {
    |i: int, j: int| f(i, 0) * g(0, j) + f(i, 1) * g(1, j) + f(i, 2) * g(2, j) + f(i, 3) * g(3, j)
}

/// The matrix `f` mirrored across its diagonal.
pub open spec fn transpose_of(f: Entries) -> Entries {
    |i: int, j: int| f(j, i)
}

/// The identity matrix: 1 on the diagonal, 0 elsewhere.
pub open spec fn identity_entries() -> Entries {
    |i: int, j: int|
        if i == j {
            1int
        } else {
            0int
        }
}

/// The adjugate of the 4 by 4 matrix `f`: the transposed matrix of its cofactors.
pub open spec fn adjugate4(f: Entries) -> Entries {
    |i: int, j: int| cofactor4(f, j, i)
}

/// Matrices that agree on their first three rows and columns have the same
/// 3 by 3 determinant.
pub proof fn lemma_det3_agree(f: Entries, g: Entries)
    requires
        forall|i: int, j: int| 0 <= i < 3 && 0 <= j < 3 ==> #[trigger] f(i, j) == g(i, j),
    ensures
        det3(f) == det3(g),
{
    assert(f(0, 0) == g(0, 0) && f(0, 1) == g(0, 1) && f(0, 2) == g(0, 2));
    assert(f(1, 0) == g(1, 0) && f(1, 1) == g(1, 1) && f(1, 2) == g(1, 2));
    assert(f(2, 0) == g(2, 0) && f(2, 1) == g(2, 1) && f(2, 2) == g(2, 2));
}

/// `v` can be held in an `i64`.
pub open spec fn fits(v: int) -> bool {
    i64::MIN <= v <= i64::MAX
}

/// A product is bounded by the product of its factors' bounds.
pub proof fn lemma_mul_bound(a: int, b: int, la: int, lb: int)
    requires
        -la <= a <= la,
        -lb <= b <= lb,
    ensures
        -(la * lb) <= a * b <= la * lb,
{
    assert(-(la * lb) <= a * b <= la * lb) by (nonlinear_arith)
        requires
            -la <= a <= la,
            -lb <= b <= lb,
    ;
}

/// Position of index `i` of a submatrix in the matrix that row or column
/// `k` was deleted from.
pub(crate) fn skip_index(i: usize, k: usize) -> (r: usize)
    requires
        i < usize::MAX,
    ensures
        r == skip(i as int, k as int),
{
    if i < k {
        i
    } else {
        i + 1
    }
}

} // verus!
