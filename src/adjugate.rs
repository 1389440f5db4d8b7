//! The adjugate inverts: a 4 by 4 matrix times its adjugate, on either side,
//! is its determinant times the identity.
//!
//! Each cofactor is written out as a sum of six products of entries. A
//! product of an entry and a cofactor is distributed over that sum, and the
//! factors of each resulting term are put in one order, by row and then by
//! column. Each entry of the two matrix products is then a sum of the same
//! terms as the determinant, or of terms that cancel in pairs.
use vstd::prelude::*;

use crate::matrix4::Matrix4;
use crate::model::{adjugate4, cofactor4, det4, product4, Entries};

verus! {

/// The determinant of the 3 by 3 matrix `s`, as a sum of products whose
/// factors stand in order of row and then of column.
pub open spec fn expanded3(
    s00: int, s01: int, s02: int, s10: int, s11: int, s12: int, s20: int, s21: int, s22: int,
) -> int {
    s00 * s11 * s22 - s00 * s12 * s21 - s01 * s10 * s22 + s01 * s12 * s20 + s02 * s10 * s21
        - s02 * s11 * s20
}

proof fn lemma_mul_add(x: int, y: int, z: int)
    ensures
        x * (y + z) == x * y + x * z,
        (y + z) * x == y * x + z * x,
{
    assert(x * (y + z) == x * y + x * z) by (nonlinear_arith);
    assert((y + z) * x == y * x + z * x) by (nonlinear_arith);
}

proof fn lemma_mul_sub(x: int, y: int, z: int)
    ensures
        x * (y - z) == x * y - x * z,
        (y - z) * x == y * x - z * x,
{
    assert(x * (y - z) == x * y - x * z) by (nonlinear_arith);
    assert((y - z) * x == y * x - z * x) by (nonlinear_arith);
}

proof fn lemma_mul_neg(x: int, y: int)
    ensures
        x * -y == -(x * y),
        -y * x == -(y * x),
{
    assert(x * -y == -(x * y)) by (nonlinear_arith);
    assert(-y * x == -(y * x)) by (nonlinear_arith);
}

/// `x` times the product of `a`, `b` and `c`, on either side, is that
/// product with `x` placed anywhere among its factors.
proof fn lemma_insert(x: int, a: int, b: int, c: int)
    ensures
        x * (a * b * c) == x * a * b * c,
        x * (a * b * c) == a * x * b * c,
        x * (a * b * c) == a * b * x * c,
        x * (a * b * c) == a * b * c * x,
        a * b * c * x == x * a * b * c,
        a * b * c * x == a * x * b * c,
        a * b * c * x == a * b * x * c,
{
    assert(x * (a * b * c) == x * a * b * c) by (nonlinear_arith);
    assert(x * (a * b * c) == a * x * b * c) by (nonlinear_arith);
    assert(x * (a * b * c) == a * b * x * c) by (nonlinear_arith);
    assert(x * (a * b * c) == a * b * c * x) by (nonlinear_arith);
}

/// One term of a 3 by 3 cofactor expansion, distributed.
proof fn lemma_term3(a: int, b: int, c: int, d: int, e: int)
    ensures
        a * (b * c - d * e) == a * b * c - a * e * d,
        a * -(b * c - d * e) == a * e * d - a * b * c,
{
    assert(a * (b * c - d * e) == a * b * c - a * e * d) by (nonlinear_arith);
    assert(a * -(b * c - d * e) == a * e * d - a * b * c) by (nonlinear_arith);
}

/// `x` times `expanded3`, on either side, distributed over its six terms.
proof fn lemma_distribute_expanded3(
    x: int, s00: int, s01: int, s02: int, s10: int, s11: int, s12: int, s20: int, s21: int,
    s22: int,
)
    ensures
        x * expanded3(s00, s01, s02, s10, s11, s12, s20, s21, s22) == x * (s00 * s11 * s22) - x * (
            s00 * s12 * s21
        ) - x * (s01 * s10 * s22) + x * (s01 * s12 * s20) + x * (s02 * s10 * s21) - x * (s02 * s11
            * s20),
        expanded3(s00, s01, s02, s10, s11, s12, s20, s21, s22) * x == s00 * s11 * s22 * x - s00
            * s12 * s21 * x - s01 * s10 * s22 * x + s01 * s12 * s20 * x + s02 * s10 * s21 * x - s02
            * s11 * s20 * x,
        x * -expanded3(s00, s01, s02, s10, s11, s12, s20, s21, s22) == -(x * expanded3(
            s00,
            s01,
            s02,
            s10,
            s11,
            s12,
            s20,
            s21,
            s22,
        )),
        -expanded3(s00, s01, s02, s10, s11, s12, s20, s21, s22) * x == -(expanded3(
            s00,
            s01,
            s02,
            s10,
            s11,
            s12,
            s20,
            s21,
            s22,
        ) * x),
{
    let t0 = s00 * s11 * s22;
    let t1 = s00 * s12 * s21;
    let t2 = s01 * s10 * s22;
    let t3 = s01 * s12 * s20;
    let t4 = s02 * s10 * s21;
    let t5 = s02 * s11 * s20;
    lemma_mul_neg(x, expanded3(s00, s01, s02, s10, s11, s12, s20, s21, s22));
    lemma_mul_sub(x, t0 - t1 - t2 + t3 + t4, t5);
    lemma_mul_add(x, t0 - t1 - t2 + t3, t4);
    lemma_mul_add(x, t0 - t1 - t2, t3);
    lemma_mul_sub(x, t0 - t1, t2);
    lemma_mul_sub(x, t0, t1);
}

/// `x` times `expanded3`, on either side, with `x` placed in each term at
/// the indices 0, 0, 0, 0, 0, 0.
proof fn lemma_times_expanded3_000000(
    x: int, s00: int, s01: int, s02: int, s10: int, s11: int, s12: int, s20: int, s21: int,
    s22: int,
)
    ensures
        x * expanded3(s00, s01, s02, s10, s11, s12, s20, s21, s22) ==
            x * s00 * s11 * s22
            - x * s00 * s12 * s21
            - x * s01 * s10 * s22
            + x * s01 * s12 * s20
            + x * s02 * s10 * s21
            - x * s02 * s11 * s20,
        expanded3(s00, s01, s02, s10, s11, s12, s20, s21, s22) * x ==
            x * s00 * s11 * s22
            - x * s00 * s12 * s21
            - x * s01 * s10 * s22
            + x * s01 * s12 * s20
            + x * s02 * s10 * s21
            - x * s02 * s11 * s20,
        x * -expanded3(s00, s01, s02, s10, s11, s12, s20, s21, s22) == -(
            x * s00 * s11 * s22
            - x * s00 * s12 * s21
            - x * s01 * s10 * s22
            + x * s01 * s12 * s20
            + x * s02 * s10 * s21
            - x * s02 * s11 * s20
        ),
        -expanded3(s00, s01, s02, s10, s11, s12, s20, s21, s22) * x == -(
            x * s00 * s11 * s22
            - x * s00 * s12 * s21
            - x * s01 * s10 * s22
            + x * s01 * s12 * s20
            + x * s02 * s10 * s21
            - x * s02 * s11 * s20
        ),
{
    lemma_distribute_expanded3(x, s00, s01, s02, s10, s11, s12, s20, s21, s22);
    lemma_insert(x, s00, s11, s22);
    lemma_insert(x, s00, s12, s21);
    lemma_insert(x, s01, s10, s22);
    lemma_insert(x, s01, s12, s20);
    lemma_insert(x, s02, s10, s21);
    lemma_insert(x, s02, s11, s20);
}

/// `x` times `expanded3`, on either side, with `x` placed in each term at
/// the indices 1, 1, 0, 0, 0, 0.
proof fn lemma_times_expanded3_110000(
    x: int, s00: int, s01: int, s02: int, s10: int, s11: int, s12: int, s20: int, s21: int,
    s22: int,
)
    ensures
        x * expanded3(s00, s01, s02, s10, s11, s12, s20, s21, s22) ==
            s00 * x * s11 * s22
            - s00 * x * s12 * s21
            - x * s01 * s10 * s22
            + x * s01 * s12 * s20
            + x * s02 * s10 * s21
            - x * s02 * s11 * s20,
        expanded3(s00, s01, s02, s10, s11, s12, s20, s21, s22) * x ==
            s00 * x * s11 * s22
            - s00 * x * s12 * s21
            - x * s01 * s10 * s22
            + x * s01 * s12 * s20
            + x * s02 * s10 * s21
            - x * s02 * s11 * s20,
        x * -expanded3(s00, s01, s02, s10, s11, s12, s20, s21, s22) == -(
            s00 * x * s11 * s22
            - s00 * x * s12 * s21
            - x * s01 * s10 * s22
            + x * s01 * s12 * s20
            + x * s02 * s10 * s21
            - x * s02 * s11 * s20
        ),
        -expanded3(s00, s01, s02, s10, s11, s12, s20, s21, s22) * x == -(
            s00 * x * s11 * s22
            - s00 * x * s12 * s21
            - x * s01 * s10 * s22
            + x * s01 * s12 * s20
            + x * s02 * s10 * s21
            - x * s02 * s11 * s20
        ),
{
    lemma_distribute_expanded3(x, s00, s01, s02, s10, s11, s12, s20, s21, s22);
    lemma_insert(x, s00, s11, s22);
    lemma_insert(x, s00, s12, s21);
    lemma_insert(x, s01, s10, s22);
    lemma_insert(x, s01, s12, s20);
    lemma_insert(x, s02, s10, s21);
    lemma_insert(x, s02, s11, s20);
}

/// `x` times `expanded3`, on either side, with `x` placed in each term at
/// the indices 1, 1, 1, 1, 0, 0.
proof fn lemma_times_expanded3_111100(
    x: int, s00: int, s01: int, s02: int, s10: int, s11: int, s12: int, s20: int, s21: int,
    s22: int,
)
    ensures
        x * expanded3(s00, s01, s02, s10, s11, s12, s20, s21, s22) ==
            s00 * x * s11 * s22
            - s00 * x * s12 * s21
            - s01 * x * s10 * s22
            + s01 * x * s12 * s20
            + x * s02 * s10 * s21
            - x * s02 * s11 * s20,
        expanded3(s00, s01, s02, s10, s11, s12, s20, s21, s22) * x ==
            s00 * x * s11 * s22
            - s00 * x * s12 * s21
            - s01 * x * s10 * s22
            + s01 * x * s12 * s20
            + x * s02 * s10 * s21
            - x * s02 * s11 * s20,
        x * -expanded3(s00, s01, s02, s10, s11, s12, s20, s21, s22) == -(
            s00 * x * s11 * s22
            - s00 * x * s12 * s21
            - s01 * x * s10 * s22
            + s01 * x * s12 * s20
            + x * s02 * s10 * s21
            - x * s02 * s11 * s20
        ),
        -expanded3(s00, s01, s02, s10, s11, s12, s20, s21, s22) * x == -(
            s00 * x * s11 * s22
            - s00 * x * s12 * s21
            - s01 * x * s10 * s22
            + s01 * x * s12 * s20
            + x * s02 * s10 * s21
            - x * s02 * s11 * s20
        ),
{
    lemma_distribute_expanded3(x, s00, s01, s02, s10, s11, s12, s20, s21, s22);
    lemma_insert(x, s00, s11, s22);
    lemma_insert(x, s00, s12, s21);
    lemma_insert(x, s01, s10, s22);
    lemma_insert(x, s01, s12, s20);
    lemma_insert(x, s02, s10, s21);
    lemma_insert(x, s02, s11, s20);
}

/// `x` times `expanded3`, on either side, with `x` placed in each term at
/// the indices 1, 1, 1, 1, 1, 1.
proof fn lemma_times_expanded3_111111(
    x: int, s00: int, s01: int, s02: int, s10: int, s11: int, s12: int, s20: int, s21: int,
    s22: int,
)
    ensures
        x * expanded3(s00, s01, s02, s10, s11, s12, s20, s21, s22) ==
            s00 * x * s11 * s22
            - s00 * x * s12 * s21
            - s01 * x * s10 * s22
            + s01 * x * s12 * s20
            + s02 * x * s10 * s21
            - s02 * x * s11 * s20,
        expanded3(s00, s01, s02, s10, s11, s12, s20, s21, s22) * x ==
            s00 * x * s11 * s22
            - s00 * x * s12 * s21
            - s01 * x * s10 * s22
            + s01 * x * s12 * s20
            + s02 * x * s10 * s21
            - s02 * x * s11 * s20,
        x * -expanded3(s00, s01, s02, s10, s11, s12, s20, s21, s22) == -(
            s00 * x * s11 * s22
            - s00 * x * s12 * s21
            - s01 * x * s10 * s22
            + s01 * x * s12 * s20
            + s02 * x * s10 * s21
            - s02 * x * s11 * s20
        ),
        -expanded3(s00, s01, s02, s10, s11, s12, s20, s21, s22) * x == -(
            s00 * x * s11 * s22
            - s00 * x * s12 * s21
            - s01 * x * s10 * s22
            + s01 * x * s12 * s20
            + s02 * x * s10 * s21
            - s02 * x * s11 * s20
        ),
{
    lemma_distribute_expanded3(x, s00, s01, s02, s10, s11, s12, s20, s21, s22);
    lemma_insert(x, s00, s11, s22);
    lemma_insert(x, s00, s12, s21);
    lemma_insert(x, s01, s10, s22);
    lemma_insert(x, s01, s12, s20);
    lemma_insert(x, s02, s10, s21);
    lemma_insert(x, s02, s11, s20);
}

/// `x` times `expanded3`, on either side, with `x` placed in each term at
/// the indices 1, 1, 2, 1, 2, 1.
proof fn lemma_times_expanded3_112121(
    x: int, s00: int, s01: int, s02: int, s10: int, s11: int, s12: int, s20: int, s21: int,
    s22: int,
)
    ensures
        x * expanded3(s00, s01, s02, s10, s11, s12, s20, s21, s22) ==
            s00 * x * s11 * s22
            - s00 * x * s12 * s21
            - s01 * s10 * x * s22
            + s01 * x * s12 * s20
            + s02 * s10 * x * s21
            - s02 * x * s11 * s20,
        expanded3(s00, s01, s02, s10, s11, s12, s20, s21, s22) * x ==
            s00 * x * s11 * s22
            - s00 * x * s12 * s21
            - s01 * s10 * x * s22
            + s01 * x * s12 * s20
            + s02 * s10 * x * s21
            - s02 * x * s11 * s20,
        x * -expanded3(s00, s01, s02, s10, s11, s12, s20, s21, s22) == -(
            s00 * x * s11 * s22
            - s00 * x * s12 * s21
            - s01 * s10 * x * s22
            + s01 * x * s12 * s20
            + s02 * s10 * x * s21
            - s02 * x * s11 * s20
        ),
        -expanded3(s00, s01, s02, s10, s11, s12, s20, s21, s22) * x == -(
            s00 * x * s11 * s22
            - s00 * x * s12 * s21
            - s01 * s10 * x * s22
            + s01 * x * s12 * s20
            + s02 * s10 * x * s21
            - s02 * x * s11 * s20
        ),
{
    lemma_distribute_expanded3(x, s00, s01, s02, s10, s11, s12, s20, s21, s22);
    lemma_insert(x, s00, s11, s22);
    lemma_insert(x, s00, s12, s21);
    lemma_insert(x, s01, s10, s22);
    lemma_insert(x, s01, s12, s20);
    lemma_insert(x, s02, s10, s21);
    lemma_insert(x, s02, s11, s20);
}

/// `x` times `expanded3`, on either side, with `x` placed in each term at
/// the indices 2, 1, 2, 1, 2, 2.
proof fn lemma_times_expanded3_212122(
    x: int, s00: int, s01: int, s02: int, s10: int, s11: int, s12: int, s20: int, s21: int,
    s22: int,
)
    ensures
        x * expanded3(s00, s01, s02, s10, s11, s12, s20, s21, s22) ==
            s00 * s11 * x * s22
            - s00 * x * s12 * s21
            - s01 * s10 * x * s22
            + s01 * x * s12 * s20
            + s02 * s10 * x * s21
            - s02 * s11 * x * s20,
        expanded3(s00, s01, s02, s10, s11, s12, s20, s21, s22) * x ==
            s00 * s11 * x * s22
            - s00 * x * s12 * s21
            - s01 * s10 * x * s22
            + s01 * x * s12 * s20
            + s02 * s10 * x * s21
            - s02 * s11 * x * s20,
        x * -expanded3(s00, s01, s02, s10, s11, s12, s20, s21, s22) == -(
            s00 * s11 * x * s22
            - s00 * x * s12 * s21
            - s01 * s10 * x * s22
            + s01 * x * s12 * s20
            + s02 * s10 * x * s21
            - s02 * s11 * x * s20
        ),
        -expanded3(s00, s01, s02, s10, s11, s12, s20, s21, s22) * x == -(
            s00 * s11 * x * s22
            - s00 * x * s12 * s21
            - s01 * s10 * x * s22
            + s01 * x * s12 * s20
            + s02 * s10 * x * s21
            - s02 * s11 * x * s20
        ),
{
    lemma_distribute_expanded3(x, s00, s01, s02, s10, s11, s12, s20, s21, s22);
    lemma_insert(x, s00, s11, s22);
    lemma_insert(x, s00, s12, s21);
    lemma_insert(x, s01, s10, s22);
    lemma_insert(x, s01, s12, s20);
    lemma_insert(x, s02, s10, s21);
    lemma_insert(x, s02, s11, s20);
}

/// `x` times `expanded3`, on either side, with `x` placed in each term at
/// the indices 2, 2, 2, 2, 2, 2.
proof fn lemma_times_expanded3_222222(
    x: int, s00: int, s01: int, s02: int, s10: int, s11: int, s12: int, s20: int, s21: int,
    s22: int,
)
    ensures
        x * expanded3(s00, s01, s02, s10, s11, s12, s20, s21, s22) ==
            s00 * s11 * x * s22
            - s00 * s12 * x * s21
            - s01 * s10 * x * s22
            + s01 * s12 * x * s20
            + s02 * s10 * x * s21
            - s02 * s11 * x * s20,
        expanded3(s00, s01, s02, s10, s11, s12, s20, s21, s22) * x ==
            s00 * s11 * x * s22
            - s00 * s12 * x * s21
            - s01 * s10 * x * s22
            + s01 * s12 * x * s20
            + s02 * s10 * x * s21
            - s02 * s11 * x * s20,
        x * -expanded3(s00, s01, s02, s10, s11, s12, s20, s21, s22) == -(
            s00 * s11 * x * s22
            - s00 * s12 * x * s21
            - s01 * s10 * x * s22
            + s01 * s12 * x * s20
            + s02 * s10 * x * s21
            - s02 * s11 * x * s20
        ),
        -expanded3(s00, s01, s02, s10, s11, s12, s20, s21, s22) * x == -(
            s00 * s11 * x * s22
            - s00 * s12 * x * s21
            - s01 * s10 * x * s22
            + s01 * s12 * x * s20
            + s02 * s10 * x * s21
            - s02 * s11 * x * s20
        ),
{
    lemma_distribute_expanded3(x, s00, s01, s02, s10, s11, s12, s20, s21, s22);
    lemma_insert(x, s00, s11, s22);
    lemma_insert(x, s00, s12, s21);
    lemma_insert(x, s01, s10, s22);
    lemma_insert(x, s01, s12, s20);
    lemma_insert(x, s02, s10, s21);
    lemma_insert(x, s02, s11, s20);
}

/// `x` times `expanded3`, on either side, with `x` placed in each term at
/// the indices 2, 2, 2, 3, 2, 3.
proof fn lemma_times_expanded3_222323(
    x: int, s00: int, s01: int, s02: int, s10: int, s11: int, s12: int, s20: int, s21: int,
    s22: int,
)
    ensures
        x * expanded3(s00, s01, s02, s10, s11, s12, s20, s21, s22) ==
            s00 * s11 * x * s22
            - s00 * s12 * x * s21
            - s01 * s10 * x * s22
            + s01 * s12 * s20 * x
            + s02 * s10 * x * s21
            - s02 * s11 * s20 * x,
        expanded3(s00, s01, s02, s10, s11, s12, s20, s21, s22) * x ==
            s00 * s11 * x * s22
            - s00 * s12 * x * s21
            - s01 * s10 * x * s22
            + s01 * s12 * s20 * x
            + s02 * s10 * x * s21
            - s02 * s11 * s20 * x,
        x * -expanded3(s00, s01, s02, s10, s11, s12, s20, s21, s22) == -(
            s00 * s11 * x * s22
            - s00 * s12 * x * s21
            - s01 * s10 * x * s22
            + s01 * s12 * s20 * x
            + s02 * s10 * x * s21
            - s02 * s11 * s20 * x
        ),
        -expanded3(s00, s01, s02, s10, s11, s12, s20, s21, s22) * x == -(
            s00 * s11 * x * s22
            - s00 * s12 * x * s21
            - s01 * s10 * x * s22
            + s01 * s12 * s20 * x
            + s02 * s10 * x * s21
            - s02 * s11 * s20 * x
        ),
{
    lemma_distribute_expanded3(x, s00, s01, s02, s10, s11, s12, s20, s21, s22);
    lemma_insert(x, s00, s11, s22);
    lemma_insert(x, s00, s12, s21);
    lemma_insert(x, s01, s10, s22);
    lemma_insert(x, s01, s12, s20);
    lemma_insert(x, s02, s10, s21);
    lemma_insert(x, s02, s11, s20);
}

/// `x` times `expanded3`, on either side, with `x` placed in each term at
/// the indices 2, 3, 2, 3, 3, 3.
proof fn lemma_times_expanded3_232333(
    x: int, s00: int, s01: int, s02: int, s10: int, s11: int, s12: int, s20: int, s21: int,
    s22: int,
)
    ensures
        x * expanded3(s00, s01, s02, s10, s11, s12, s20, s21, s22) ==
            s00 * s11 * x * s22
            - s00 * s12 * s21 * x
            - s01 * s10 * x * s22
            + s01 * s12 * s20 * x
            + s02 * s10 * s21 * x
            - s02 * s11 * s20 * x,
        expanded3(s00, s01, s02, s10, s11, s12, s20, s21, s22) * x ==
            s00 * s11 * x * s22
            - s00 * s12 * s21 * x
            - s01 * s10 * x * s22
            + s01 * s12 * s20 * x
            + s02 * s10 * s21 * x
            - s02 * s11 * s20 * x,
        x * -expanded3(s00, s01, s02, s10, s11, s12, s20, s21, s22) == -(
            s00 * s11 * x * s22
            - s00 * s12 * s21 * x
            - s01 * s10 * x * s22
            + s01 * s12 * s20 * x
            + s02 * s10 * s21 * x
            - s02 * s11 * s20 * x
        ),
        -expanded3(s00, s01, s02, s10, s11, s12, s20, s21, s22) * x == -(
            s00 * s11 * x * s22
            - s00 * s12 * s21 * x
            - s01 * s10 * x * s22
            + s01 * s12 * s20 * x
            + s02 * s10 * s21 * x
            - s02 * s11 * s20 * x
        ),
{
    lemma_distribute_expanded3(x, s00, s01, s02, s10, s11, s12, s20, s21, s22);
    lemma_insert(x, s00, s11, s22);
    lemma_insert(x, s00, s12, s21);
    lemma_insert(x, s01, s10, s22);
    lemma_insert(x, s01, s12, s20);
    lemma_insert(x, s02, s10, s21);
    lemma_insert(x, s02, s11, s20);
}

/// `x` times `expanded3`, on either side, with `x` placed in each term at
/// the indices 3, 3, 3, 3, 3, 3.
proof fn lemma_times_expanded3_333333(
    x: int, s00: int, s01: int, s02: int, s10: int, s11: int, s12: int, s20: int, s21: int,
    s22: int,
)
    ensures
        x * expanded3(s00, s01, s02, s10, s11, s12, s20, s21, s22) ==
            s00 * s11 * s22 * x
            - s00 * s12 * s21 * x
            - s01 * s10 * s22 * x
            + s01 * s12 * s20 * x
            + s02 * s10 * s21 * x
            - s02 * s11 * s20 * x,
        expanded3(s00, s01, s02, s10, s11, s12, s20, s21, s22) * x ==
            s00 * s11 * s22 * x
            - s00 * s12 * s21 * x
            - s01 * s10 * s22 * x
            + s01 * s12 * s20 * x
            + s02 * s10 * s21 * x
            - s02 * s11 * s20 * x,
        x * -expanded3(s00, s01, s02, s10, s11, s12, s20, s21, s22) == -(
            s00 * s11 * s22 * x
            - s00 * s12 * s21 * x
            - s01 * s10 * s22 * x
            + s01 * s12 * s20 * x
            + s02 * s10 * s21 * x
            - s02 * s11 * s20 * x
        ),
        -expanded3(s00, s01, s02, s10, s11, s12, s20, s21, s22) * x == -(
            s00 * s11 * s22 * x
            - s00 * s12 * s21 * x
            - s01 * s10 * s22 * x
            + s01 * s12 * s20 * x
            + s02 * s10 * s21 * x
            - s02 * s11 * s20 * x
        ),
{
    lemma_distribute_expanded3(x, s00, s01, s02, s10, s11, s12, s20, s21, s22);
    lemma_insert(x, s00, s11, s22);
    lemma_insert(x, s00, s12, s21);
    lemma_insert(x, s01, s10, s22);
    lemma_insert(x, s01, s12, s20);
    lemma_insert(x, s02, s10, s21);
    lemma_insert(x, s02, s11, s20);
}

/// Each cofactor, written out by `expanded3`.
proof fn lemma_cofactors_expanded(f: Entries)
    ensures
        cofactor4(f, 0, 0) == expanded3(
            f(1, 1), f(1, 2), f(1, 3), f(2, 1), f(2, 2),
            f(2, 3), f(3, 1), f(3, 2), f(3, 3),
        ),
        cofactor4(f, 0, 1) == -expanded3(
            f(1, 0), f(1, 2), f(1, 3), f(2, 0), f(2, 2),
            f(2, 3), f(3, 0), f(3, 2), f(3, 3),
        ),
        cofactor4(f, 0, 2) == expanded3(
            f(1, 0), f(1, 1), f(1, 3), f(2, 0), f(2, 1),
            f(2, 3), f(3, 0), f(3, 1), f(3, 3),
        ),
        cofactor4(f, 0, 3) == -expanded3(
            f(1, 0), f(1, 1), f(1, 2), f(2, 0), f(2, 1),
            f(2, 2), f(3, 0), f(3, 1), f(3, 2),
        ),
        cofactor4(f, 1, 0) == -expanded3(
            f(0, 1), f(0, 2), f(0, 3), f(2, 1), f(2, 2),
            f(2, 3), f(3, 1), f(3, 2), f(3, 3),
        ),
        cofactor4(f, 1, 1) == expanded3(
            f(0, 0), f(0, 2), f(0, 3), f(2, 0), f(2, 2),
            f(2, 3), f(3, 0), f(3, 2), f(3, 3),
        ),
        cofactor4(f, 1, 2) == -expanded3(
            f(0, 0), f(0, 1), f(0, 3), f(2, 0), f(2, 1),
            f(2, 3), f(3, 0), f(3, 1), f(3, 3),
        ),
        cofactor4(f, 1, 3) == expanded3(
            f(0, 0), f(0, 1), f(0, 2), f(2, 0), f(2, 1),
            f(2, 2), f(3, 0), f(3, 1), f(3, 2),
        ),
        cofactor4(f, 2, 0) == expanded3(
            f(0, 1), f(0, 2), f(0, 3), f(1, 1), f(1, 2),
            f(1, 3), f(3, 1), f(3, 2), f(3, 3),
        ),
        cofactor4(f, 2, 1) == -expanded3(
            f(0, 0), f(0, 2), f(0, 3), f(1, 0), f(1, 2),
            f(1, 3), f(3, 0), f(3, 2), f(3, 3),
        ),
        cofactor4(f, 2, 2) == expanded3(
            f(0, 0), f(0, 1), f(0, 3), f(1, 0), f(1, 1),
            f(1, 3), f(3, 0), f(3, 1), f(3, 3),
        ),
        cofactor4(f, 2, 3) == -expanded3(
            f(0, 0), f(0, 1), f(0, 2), f(1, 0), f(1, 1),
            f(1, 2), f(3, 0), f(3, 1), f(3, 2),
        ),
        cofactor4(f, 3, 0) == -expanded3(
            f(0, 1), f(0, 2), f(0, 3), f(1, 1), f(1, 2),
            f(1, 3), f(2, 1), f(2, 2), f(2, 3),
        ),
        cofactor4(f, 3, 1) == expanded3(
            f(0, 0), f(0, 2), f(0, 3), f(1, 0), f(1, 2),
            f(1, 3), f(2, 0), f(2, 2), f(2, 3),
        ),
        cofactor4(f, 3, 2) == -expanded3(
            f(0, 0), f(0, 1), f(0, 3), f(1, 0), f(1, 1),
            f(1, 3), f(2, 0), f(2, 1), f(2, 3),
        ),
        cofactor4(f, 3, 3) == expanded3(
            f(0, 0), f(0, 1), f(0, 2), f(1, 0), f(1, 1),
            f(1, 2), f(2, 0), f(2, 1), f(2, 2),
        ),
{
    lemma_term3(f(1, 1), f(2, 2), f(3, 3), f(3, 2), f(2, 3));
    lemma_term3(f(1, 2), f(2, 1), f(3, 3), f(3, 1), f(2, 3));
    lemma_term3(f(1, 3), f(2, 1), f(3, 2), f(3, 1), f(2, 2));
    assert(cofactor4(f, 0, 0) == (
        f(1, 1) * (f(2, 2) * f(3, 3) - f(3, 2) * f(2, 3))
        + f(1, 2) * -(f(2, 1) * f(3, 3) - f(3, 1) * f(2, 3))
        + f(1, 3) * (f(2, 1) * f(3, 2) - f(3, 1) * f(2, 2))
    ));
    lemma_term3(f(1, 0), f(2, 2), f(3, 3), f(3, 2), f(2, 3));
    lemma_term3(f(1, 2), f(2, 0), f(3, 3), f(3, 0), f(2, 3));
    lemma_term3(f(1, 3), f(2, 0), f(3, 2), f(3, 0), f(2, 2));
    assert(cofactor4(f, 0, 1) == -(
        f(1, 0) * (f(2, 2) * f(3, 3) - f(3, 2) * f(2, 3))
        + f(1, 2) * -(f(2, 0) * f(3, 3) - f(3, 0) * f(2, 3))
        + f(1, 3) * (f(2, 0) * f(3, 2) - f(3, 0) * f(2, 2))
    ));
    lemma_term3(f(1, 0), f(2, 1), f(3, 3), f(3, 1), f(2, 3));
    lemma_term3(f(1, 1), f(2, 0), f(3, 3), f(3, 0), f(2, 3));
    lemma_term3(f(1, 3), f(2, 0), f(3, 1), f(3, 0), f(2, 1));
    assert(cofactor4(f, 0, 2) == (
        f(1, 0) * (f(2, 1) * f(3, 3) - f(3, 1) * f(2, 3))
        + f(1, 1) * -(f(2, 0) * f(3, 3) - f(3, 0) * f(2, 3))
        + f(1, 3) * (f(2, 0) * f(3, 1) - f(3, 0) * f(2, 1))
    ));
    lemma_term3(f(1, 0), f(2, 1), f(3, 2), f(3, 1), f(2, 2));
    lemma_term3(f(1, 1), f(2, 0), f(3, 2), f(3, 0), f(2, 2));
    lemma_term3(f(1, 2), f(2, 0), f(3, 1), f(3, 0), f(2, 1));
    assert(cofactor4(f, 0, 3) == -(
        f(1, 0) * (f(2, 1) * f(3, 2) - f(3, 1) * f(2, 2))
        + f(1, 1) * -(f(2, 0) * f(3, 2) - f(3, 0) * f(2, 2))
        + f(1, 2) * (f(2, 0) * f(3, 1) - f(3, 0) * f(2, 1))
    ));
    lemma_term3(f(0, 1), f(2, 2), f(3, 3), f(3, 2), f(2, 3));
    lemma_term3(f(0, 2), f(2, 1), f(3, 3), f(3, 1), f(2, 3));
    lemma_term3(f(0, 3), f(2, 1), f(3, 2), f(3, 1), f(2, 2));
    assert(cofactor4(f, 1, 0) == -(
        f(0, 1) * (f(2, 2) * f(3, 3) - f(3, 2) * f(2, 3))
        + f(0, 2) * -(f(2, 1) * f(3, 3) - f(3, 1) * f(2, 3))
        + f(0, 3) * (f(2, 1) * f(3, 2) - f(3, 1) * f(2, 2))
    ));
    lemma_term3(f(0, 0), f(2, 2), f(3, 3), f(3, 2), f(2, 3));
    lemma_term3(f(0, 2), f(2, 0), f(3, 3), f(3, 0), f(2, 3));
    lemma_term3(f(0, 3), f(2, 0), f(3, 2), f(3, 0), f(2, 2));
    assert(cofactor4(f, 1, 1) == (
        f(0, 0) * (f(2, 2) * f(3, 3) - f(3, 2) * f(2, 3))
        + f(0, 2) * -(f(2, 0) * f(3, 3) - f(3, 0) * f(2, 3))
        + f(0, 3) * (f(2, 0) * f(3, 2) - f(3, 0) * f(2, 2))
    ));
    lemma_term3(f(0, 0), f(2, 1), f(3, 3), f(3, 1), f(2, 3));
    lemma_term3(f(0, 1), f(2, 0), f(3, 3), f(3, 0), f(2, 3));
    lemma_term3(f(0, 3), f(2, 0), f(3, 1), f(3, 0), f(2, 1));
    assert(cofactor4(f, 1, 2) == -(
        f(0, 0) * (f(2, 1) * f(3, 3) - f(3, 1) * f(2, 3))
        + f(0, 1) * -(f(2, 0) * f(3, 3) - f(3, 0) * f(2, 3))
        + f(0, 3) * (f(2, 0) * f(3, 1) - f(3, 0) * f(2, 1))
    ));
    lemma_term3(f(0, 0), f(2, 1), f(3, 2), f(3, 1), f(2, 2));
    lemma_term3(f(0, 1), f(2, 0), f(3, 2), f(3, 0), f(2, 2));
    lemma_term3(f(0, 2), f(2, 0), f(3, 1), f(3, 0), f(2, 1));
    assert(cofactor4(f, 1, 3) == (
        f(0, 0) * (f(2, 1) * f(3, 2) - f(3, 1) * f(2, 2))
        + f(0, 1) * -(f(2, 0) * f(3, 2) - f(3, 0) * f(2, 2))
        + f(0, 2) * (f(2, 0) * f(3, 1) - f(3, 0) * f(2, 1))
    ));
    lemma_term3(f(0, 1), f(1, 2), f(3, 3), f(3, 2), f(1, 3));
    lemma_term3(f(0, 2), f(1, 1), f(3, 3), f(3, 1), f(1, 3));
    lemma_term3(f(0, 3), f(1, 1), f(3, 2), f(3, 1), f(1, 2));
    assert(cofactor4(f, 2, 0) == (
        f(0, 1) * (f(1, 2) * f(3, 3) - f(3, 2) * f(1, 3))
        + f(0, 2) * -(f(1, 1) * f(3, 3) - f(3, 1) * f(1, 3))
        + f(0, 3) * (f(1, 1) * f(3, 2) - f(3, 1) * f(1, 2))
    ));
    lemma_term3(f(0, 0), f(1, 2), f(3, 3), f(3, 2), f(1, 3));
    lemma_term3(f(0, 2), f(1, 0), f(3, 3), f(3, 0), f(1, 3));
    lemma_term3(f(0, 3), f(1, 0), f(3, 2), f(3, 0), f(1, 2));
    assert(cofactor4(f, 2, 1) == -(
        f(0, 0) * (f(1, 2) * f(3, 3) - f(3, 2) * f(1, 3))
        + f(0, 2) * -(f(1, 0) * f(3, 3) - f(3, 0) * f(1, 3))
        + f(0, 3) * (f(1, 0) * f(3, 2) - f(3, 0) * f(1, 2))
    ));
    lemma_term3(f(0, 0), f(1, 1), f(3, 3), f(3, 1), f(1, 3));
    lemma_term3(f(0, 1), f(1, 0), f(3, 3), f(3, 0), f(1, 3));
    lemma_term3(f(0, 3), f(1, 0), f(3, 1), f(3, 0), f(1, 1));
    assert(cofactor4(f, 2, 2) == (
        f(0, 0) * (f(1, 1) * f(3, 3) - f(3, 1) * f(1, 3))
        + f(0, 1) * -(f(1, 0) * f(3, 3) - f(3, 0) * f(1, 3))
        + f(0, 3) * (f(1, 0) * f(3, 1) - f(3, 0) * f(1, 1))
    ));
    lemma_term3(f(0, 0), f(1, 1), f(3, 2), f(3, 1), f(1, 2));
    lemma_term3(f(0, 1), f(1, 0), f(3, 2), f(3, 0), f(1, 2));
    lemma_term3(f(0, 2), f(1, 0), f(3, 1), f(3, 0), f(1, 1));
    assert(cofactor4(f, 2, 3) == -(
        f(0, 0) * (f(1, 1) * f(3, 2) - f(3, 1) * f(1, 2))
        + f(0, 1) * -(f(1, 0) * f(3, 2) - f(3, 0) * f(1, 2))
        + f(0, 2) * (f(1, 0) * f(3, 1) - f(3, 0) * f(1, 1))
    ));
    lemma_term3(f(0, 1), f(1, 2), f(2, 3), f(2, 2), f(1, 3));
    lemma_term3(f(0, 2), f(1, 1), f(2, 3), f(2, 1), f(1, 3));
    lemma_term3(f(0, 3), f(1, 1), f(2, 2), f(2, 1), f(1, 2));
    assert(cofactor4(f, 3, 0) == -(
        f(0, 1) * (f(1, 2) * f(2, 3) - f(2, 2) * f(1, 3))
        + f(0, 2) * -(f(1, 1) * f(2, 3) - f(2, 1) * f(1, 3))
        + f(0, 3) * (f(1, 1) * f(2, 2) - f(2, 1) * f(1, 2))
    ));
    lemma_term3(f(0, 0), f(1, 2), f(2, 3), f(2, 2), f(1, 3));
    lemma_term3(f(0, 2), f(1, 0), f(2, 3), f(2, 0), f(1, 3));
    lemma_term3(f(0, 3), f(1, 0), f(2, 2), f(2, 0), f(1, 2));
    assert(cofactor4(f, 3, 1) == (
        f(0, 0) * (f(1, 2) * f(2, 3) - f(2, 2) * f(1, 3))
        + f(0, 2) * -(f(1, 0) * f(2, 3) - f(2, 0) * f(1, 3))
        + f(0, 3) * (f(1, 0) * f(2, 2) - f(2, 0) * f(1, 2))
    ));
    lemma_term3(f(0, 0), f(1, 1), f(2, 3), f(2, 1), f(1, 3));
    lemma_term3(f(0, 1), f(1, 0), f(2, 3), f(2, 0), f(1, 3));
    lemma_term3(f(0, 3), f(1, 0), f(2, 1), f(2, 0), f(1, 1));
    assert(cofactor4(f, 3, 2) == -(
        f(0, 0) * (f(1, 1) * f(2, 3) - f(2, 1) * f(1, 3))
        + f(0, 1) * -(f(1, 0) * f(2, 3) - f(2, 0) * f(1, 3))
        + f(0, 3) * (f(1, 0) * f(2, 1) - f(2, 0) * f(1, 1))
    ));
    lemma_term3(f(0, 0), f(1, 1), f(2, 2), f(2, 1), f(1, 2));
    lemma_term3(f(0, 1), f(1, 0), f(2, 2), f(2, 0), f(1, 2));
    lemma_term3(f(0, 2), f(1, 0), f(2, 1), f(2, 0), f(1, 1));
    assert(cofactor4(f, 3, 3) == (
        f(0, 0) * (f(1, 1) * f(2, 2) - f(2, 1) * f(1, 2))
        + f(0, 1) * -(f(1, 0) * f(2, 2) - f(2, 0) * f(1, 2))
        + f(0, 2) * (f(1, 0) * f(2, 1) - f(2, 0) * f(1, 1))
    ));
}

proof fn lemma_matrix_times_adjugate_row0(f: Entries)
    ensures
        product4(f, adjugate4(f))(0, 0) == det4(f),
        product4(f, adjugate4(f))(0, 1) == 0,
        product4(f, adjugate4(f))(0, 2) == 0,
        product4(f, adjugate4(f))(0, 3) == 0,
{
    lemma_cofactors_expanded(f);
    lemma_times_expanded3_000000(
        f(0, 0), f(1, 1), f(1, 2), f(1, 3), f(2, 1), f(2, 2), f(2, 3), f(3, 1), f(3, 2), f(3, 3),
    );
    lemma_times_expanded3_000000(
        f(0, 1), f(1, 0), f(1, 2), f(1, 3), f(2, 0), f(2, 2), f(2, 3), f(3, 0), f(3, 2), f(3, 3),
    );
    lemma_times_expanded3_000000(
        f(0, 2), f(1, 0), f(1, 1), f(1, 3), f(2, 0), f(2, 1), f(2, 3), f(3, 0), f(3, 1), f(3, 3),
    );
    lemma_times_expanded3_000000(
        f(0, 3), f(1, 0), f(1, 1), f(1, 2), f(2, 0), f(2, 1), f(2, 2), f(3, 0), f(3, 1), f(3, 2),
    );
    lemma_times_expanded3_000000(
        f(0, 0), f(0, 1), f(0, 2), f(0, 3), f(2, 1), f(2, 2), f(2, 3), f(3, 1), f(3, 2), f(3, 3),
    );
    lemma_times_expanded3_110000(
        f(0, 1), f(0, 0), f(0, 2), f(0, 3), f(2, 0), f(2, 2), f(2, 3), f(3, 0), f(3, 2), f(3, 3),
    );
    lemma_times_expanded3_111100(
        f(0, 2), f(0, 0), f(0, 1), f(0, 3), f(2, 0), f(2, 1), f(2, 3), f(3, 0), f(3, 1), f(3, 3),
    );
    lemma_times_expanded3_111111(
        f(0, 3), f(0, 0), f(0, 1), f(0, 2), f(2, 0), f(2, 1), f(2, 2), f(3, 0), f(3, 1), f(3, 2),
    );
    lemma_times_expanded3_000000(
        f(0, 0), f(0, 1), f(0, 2), f(0, 3), f(1, 1), f(1, 2), f(1, 3), f(3, 1), f(3, 2), f(3, 3),
    );
    lemma_times_expanded3_110000(
        f(0, 1), f(0, 0), f(0, 2), f(0, 3), f(1, 0), f(1, 2), f(1, 3), f(3, 0), f(3, 2), f(3, 3),
    );
    lemma_times_expanded3_111100(
        f(0, 2), f(0, 0), f(0, 1), f(0, 3), f(1, 0), f(1, 1), f(1, 3), f(3, 0), f(3, 1), f(3, 3),
    );
    lemma_times_expanded3_111111(
        f(0, 3), f(0, 0), f(0, 1), f(0, 2), f(1, 0), f(1, 1), f(1, 2), f(3, 0), f(3, 1), f(3, 2),
    );
    lemma_times_expanded3_000000(
        f(0, 0), f(0, 1), f(0, 2), f(0, 3), f(1, 1), f(1, 2), f(1, 3), f(2, 1), f(2, 2), f(2, 3),
    );
    lemma_times_expanded3_110000(
        f(0, 1), f(0, 0), f(0, 2), f(0, 3), f(1, 0), f(1, 2), f(1, 3), f(2, 0), f(2, 2), f(2, 3),
    );
    lemma_times_expanded3_111100(
        f(0, 2), f(0, 0), f(0, 1), f(0, 3), f(1, 0), f(1, 1), f(1, 3), f(2, 0), f(2, 1), f(2, 3),
    );
    lemma_times_expanded3_111111(
        f(0, 3), f(0, 0), f(0, 1), f(0, 2), f(1, 0), f(1, 1), f(1, 2), f(2, 0), f(2, 1), f(2, 2),
    );
    assert(product4(f, adjugate4(f))(0, 0) == det4(f));
    assert(product4(f, adjugate4(f))(0, 1) == 0);
    assert(product4(f, adjugate4(f))(0, 2) == 0);
    assert(product4(f, adjugate4(f))(0, 3) == 0);
}

proof fn lemma_matrix_times_adjugate_row1(f: Entries)
    ensures
        product4(f, adjugate4(f))(1, 0) == 0,
        product4(f, adjugate4(f))(1, 1) == det4(f),
        product4(f, adjugate4(f))(1, 2) == 0,
        product4(f, adjugate4(f))(1, 3) == 0,
{
    lemma_cofactors_expanded(f);
    lemma_times_expanded3_000000(
        f(1, 0), f(1, 1), f(1, 2), f(1, 3), f(2, 1), f(2, 2), f(2, 3), f(3, 1), f(3, 2), f(3, 3),
    );
    lemma_times_expanded3_110000(
        f(1, 1), f(1, 0), f(1, 2), f(1, 3), f(2, 0), f(2, 2), f(2, 3), f(3, 0), f(3, 2), f(3, 3),
    );
    lemma_times_expanded3_111100(
        f(1, 2), f(1, 0), f(1, 1), f(1, 3), f(2, 0), f(2, 1), f(2, 3), f(3, 0), f(3, 1), f(3, 3),
    );
    lemma_times_expanded3_111111(
        f(1, 3), f(1, 0), f(1, 1), f(1, 2), f(2, 0), f(2, 1), f(2, 2), f(3, 0), f(3, 1), f(3, 2),
    );
    lemma_times_expanded3_111111(
        f(1, 0), f(0, 1), f(0, 2), f(0, 3), f(2, 1), f(2, 2), f(2, 3), f(3, 1), f(3, 2), f(3, 3),
    );
    lemma_times_expanded3_111111(
        f(1, 1), f(0, 0), f(0, 2), f(0, 3), f(2, 0), f(2, 2), f(2, 3), f(3, 0), f(3, 2), f(3, 3),
    );
    lemma_times_expanded3_111111(
        f(1, 2), f(0, 0), f(0, 1), f(0, 3), f(2, 0), f(2, 1), f(2, 3), f(3, 0), f(3, 1), f(3, 3),
    );
    lemma_times_expanded3_111111(
        f(1, 3), f(0, 0), f(0, 1), f(0, 2), f(2, 0), f(2, 1), f(2, 2), f(3, 0), f(3, 1), f(3, 2),
    );
    lemma_times_expanded3_000000(
        f(0, 0), f(1, 1), f(1, 2), f(1, 3), f(2, 1), f(2, 2), f(2, 3), f(3, 1), f(3, 2), f(3, 3),
    );
    lemma_times_expanded3_000000(
        f(0, 1), f(1, 0), f(1, 2), f(1, 3), f(2, 0), f(2, 2), f(2, 3), f(3, 0), f(3, 2), f(3, 3),
    );
    lemma_times_expanded3_000000(
        f(0, 2), f(1, 0), f(1, 1), f(1, 3), f(2, 0), f(2, 1), f(2, 3), f(3, 0), f(3, 1), f(3, 3),
    );
    lemma_times_expanded3_000000(
        f(0, 3), f(1, 0), f(1, 1), f(1, 2), f(2, 0), f(2, 1), f(2, 2), f(3, 0), f(3, 1), f(3, 2),
    );
    lemma_times_expanded3_111111(
        f(1, 0), f(0, 1), f(0, 2), f(0, 3), f(1, 1), f(1, 2), f(1, 3), f(3, 1), f(3, 2), f(3, 3),
    );
    lemma_times_expanded3_112121(
        f(1, 1), f(0, 0), f(0, 2), f(0, 3), f(1, 0), f(1, 2), f(1, 3), f(3, 0), f(3, 2), f(3, 3),
    );
    lemma_times_expanded3_212122(
        f(1, 2), f(0, 0), f(0, 1), f(0, 3), f(1, 0), f(1, 1), f(1, 3), f(3, 0), f(3, 1), f(3, 3),
    );
    lemma_times_expanded3_222222(
        f(1, 3), f(0, 0), f(0, 1), f(0, 2), f(1, 0), f(1, 1), f(1, 2), f(3, 0), f(3, 1), f(3, 2),
    );
    lemma_times_expanded3_111111(
        f(1, 0), f(0, 1), f(0, 2), f(0, 3), f(1, 1), f(1, 2), f(1, 3), f(2, 1), f(2, 2), f(2, 3),
    );
    lemma_times_expanded3_112121(
        f(1, 1), f(0, 0), f(0, 2), f(0, 3), f(1, 0), f(1, 2), f(1, 3), f(2, 0), f(2, 2), f(2, 3),
    );
    lemma_times_expanded3_212122(
        f(1, 2), f(0, 0), f(0, 1), f(0, 3), f(1, 0), f(1, 1), f(1, 3), f(2, 0), f(2, 1), f(2, 3),
    );
    lemma_times_expanded3_222222(
        f(1, 3), f(0, 0), f(0, 1), f(0, 2), f(1, 0), f(1, 1), f(1, 2), f(2, 0), f(2, 1), f(2, 2),
    );
    assert(product4(f, adjugate4(f))(1, 0) == 0);
    assert(product4(f, adjugate4(f))(1, 1) == det4(f));
    assert(product4(f, adjugate4(f))(1, 2) == 0);
    assert(product4(f, adjugate4(f))(1, 3) == 0);
}

proof fn lemma_matrix_times_adjugate_row2(f: Entries)
    ensures
        product4(f, adjugate4(f))(2, 0) == 0,
        product4(f, adjugate4(f))(2, 1) == 0,
        product4(f, adjugate4(f))(2, 2) == det4(f),
        product4(f, adjugate4(f))(2, 3) == 0,
{
    lemma_cofactors_expanded(f);
    lemma_times_expanded3_111111(
        f(2, 0), f(1, 1), f(1, 2), f(1, 3), f(2, 1), f(2, 2), f(2, 3), f(3, 1), f(3, 2), f(3, 3),
    );
    lemma_times_expanded3_112121(
        f(2, 1), f(1, 0), f(1, 2), f(1, 3), f(2, 0), f(2, 2), f(2, 3), f(3, 0), f(3, 2), f(3, 3),
    );
    lemma_times_expanded3_212122(
        f(2, 2), f(1, 0), f(1, 1), f(1, 3), f(2, 0), f(2, 1), f(2, 3), f(3, 0), f(3, 1), f(3, 3),
    );
    lemma_times_expanded3_222222(
        f(2, 3), f(1, 0), f(1, 1), f(1, 2), f(2, 0), f(2, 1), f(2, 2), f(3, 0), f(3, 1), f(3, 2),
    );
    lemma_times_expanded3_111111(
        f(2, 0), f(0, 1), f(0, 2), f(0, 3), f(2, 1), f(2, 2), f(2, 3), f(3, 1), f(3, 2), f(3, 3),
    );
    lemma_times_expanded3_112121(
        f(2, 1), f(0, 0), f(0, 2), f(0, 3), f(2, 0), f(2, 2), f(2, 3), f(3, 0), f(3, 2), f(3, 3),
    );
    lemma_times_expanded3_212122(
        f(2, 2), f(0, 0), f(0, 1), f(0, 3), f(2, 0), f(2, 1), f(2, 3), f(3, 0), f(3, 1), f(3, 3),
    );
    lemma_times_expanded3_222222(
        f(2, 3), f(0, 0), f(0, 1), f(0, 2), f(2, 0), f(2, 1), f(2, 2), f(3, 0), f(3, 1), f(3, 2),
    );
    lemma_times_expanded3_222222(
        f(2, 0), f(0, 1), f(0, 2), f(0, 3), f(1, 1), f(1, 2), f(1, 3), f(3, 1), f(3, 2), f(3, 3),
    );
    lemma_times_expanded3_222222(
        f(2, 1), f(0, 0), f(0, 2), f(0, 3), f(1, 0), f(1, 2), f(1, 3), f(3, 0), f(3, 2), f(3, 3),
    );
    lemma_times_expanded3_222222(
        f(2, 2), f(0, 0), f(0, 1), f(0, 3), f(1, 0), f(1, 1), f(1, 3), f(3, 0), f(3, 1), f(3, 3),
    );
    lemma_times_expanded3_222222(
        f(2, 3), f(0, 0), f(0, 1), f(0, 2), f(1, 0), f(1, 1), f(1, 2), f(3, 0), f(3, 1), f(3, 2),
    );
    lemma_times_expanded3_000000(
        f(0, 0), f(1, 1), f(1, 2), f(1, 3), f(2, 1), f(2, 2), f(2, 3), f(3, 1), f(3, 2), f(3, 3),
    );
    lemma_times_expanded3_000000(
        f(0, 1), f(1, 0), f(1, 2), f(1, 3), f(2, 0), f(2, 2), f(2, 3), f(3, 0), f(3, 2), f(3, 3),
    );
    lemma_times_expanded3_000000(
        f(0, 2), f(1, 0), f(1, 1), f(1, 3), f(2, 0), f(2, 1), f(2, 3), f(3, 0), f(3, 1), f(3, 3),
    );
    lemma_times_expanded3_000000(
        f(0, 3), f(1, 0), f(1, 1), f(1, 2), f(2, 0), f(2, 1), f(2, 2), f(3, 0), f(3, 1), f(3, 2),
    );
    lemma_times_expanded3_222222(
        f(2, 0), f(0, 1), f(0, 2), f(0, 3), f(1, 1), f(1, 2), f(1, 3), f(2, 1), f(2, 2), f(2, 3),
    );
    lemma_times_expanded3_222323(
        f(2, 1), f(0, 0), f(0, 2), f(0, 3), f(1, 0), f(1, 2), f(1, 3), f(2, 0), f(2, 2), f(2, 3),
    );
    lemma_times_expanded3_232333(
        f(2, 2), f(0, 0), f(0, 1), f(0, 3), f(1, 0), f(1, 1), f(1, 3), f(2, 0), f(2, 1), f(2, 3),
    );
    lemma_times_expanded3_333333(
        f(2, 3), f(0, 0), f(0, 1), f(0, 2), f(1, 0), f(1, 1), f(1, 2), f(2, 0), f(2, 1), f(2, 2),
    );
    assert(product4(f, adjugate4(f))(2, 0) == 0);
    assert(product4(f, adjugate4(f))(2, 1) == 0);
    assert(product4(f, adjugate4(f))(2, 2) == det4(f));
    assert(product4(f, adjugate4(f))(2, 3) == 0);
}

proof fn lemma_matrix_times_adjugate_row3(f: Entries)
    ensures
        product4(f, adjugate4(f))(3, 0) == 0,
        product4(f, adjugate4(f))(3, 1) == 0,
        product4(f, adjugate4(f))(3, 2) == 0,
        product4(f, adjugate4(f))(3, 3) == det4(f),
{
    lemma_cofactors_expanded(f);
    lemma_times_expanded3_222222(
        f(3, 0), f(1, 1), f(1, 2), f(1, 3), f(2, 1), f(2, 2), f(2, 3), f(3, 1), f(3, 2), f(3, 3),
    );
    lemma_times_expanded3_222323(
        f(3, 1), f(1, 0), f(1, 2), f(1, 3), f(2, 0), f(2, 2), f(2, 3), f(3, 0), f(3, 2), f(3, 3),
    );
    lemma_times_expanded3_232333(
        f(3, 2), f(1, 0), f(1, 1), f(1, 3), f(2, 0), f(2, 1), f(2, 3), f(3, 0), f(3, 1), f(3, 3),
    );
    lemma_times_expanded3_333333(
        f(3, 3), f(1, 0), f(1, 1), f(1, 2), f(2, 0), f(2, 1), f(2, 2), f(3, 0), f(3, 1), f(3, 2),
    );
    lemma_times_expanded3_222222(
        f(3, 0), f(0, 1), f(0, 2), f(0, 3), f(2, 1), f(2, 2), f(2, 3), f(3, 1), f(3, 2), f(3, 3),
    );
    lemma_times_expanded3_222323(
        f(3, 1), f(0, 0), f(0, 2), f(0, 3), f(2, 0), f(2, 2), f(2, 3), f(3, 0), f(3, 2), f(3, 3),
    );
    lemma_times_expanded3_232333(
        f(3, 2), f(0, 0), f(0, 1), f(0, 3), f(2, 0), f(2, 1), f(2, 3), f(3, 0), f(3, 1), f(3, 3),
    );
    lemma_times_expanded3_333333(
        f(3, 3), f(0, 0), f(0, 1), f(0, 2), f(2, 0), f(2, 1), f(2, 2), f(3, 0), f(3, 1), f(3, 2),
    );
    lemma_times_expanded3_222222(
        f(3, 0), f(0, 1), f(0, 2), f(0, 3), f(1, 1), f(1, 2), f(1, 3), f(3, 1), f(3, 2), f(3, 3),
    );
    lemma_times_expanded3_222323(
        f(3, 1), f(0, 0), f(0, 2), f(0, 3), f(1, 0), f(1, 2), f(1, 3), f(3, 0), f(3, 2), f(3, 3),
    );
    lemma_times_expanded3_232333(
        f(3, 2), f(0, 0), f(0, 1), f(0, 3), f(1, 0), f(1, 1), f(1, 3), f(3, 0), f(3, 1), f(3, 3),
    );
    lemma_times_expanded3_333333(
        f(3, 3), f(0, 0), f(0, 1), f(0, 2), f(1, 0), f(1, 1), f(1, 2), f(3, 0), f(3, 1), f(3, 2),
    );
    lemma_times_expanded3_333333(
        f(3, 0), f(0, 1), f(0, 2), f(0, 3), f(1, 1), f(1, 2), f(1, 3), f(2, 1), f(2, 2), f(2, 3),
    );
    lemma_times_expanded3_333333(
        f(3, 1), f(0, 0), f(0, 2), f(0, 3), f(1, 0), f(1, 2), f(1, 3), f(2, 0), f(2, 2), f(2, 3),
    );
    lemma_times_expanded3_333333(
        f(3, 2), f(0, 0), f(0, 1), f(0, 3), f(1, 0), f(1, 1), f(1, 3), f(2, 0), f(2, 1), f(2, 3),
    );
    lemma_times_expanded3_333333(
        f(3, 3), f(0, 0), f(0, 1), f(0, 2), f(1, 0), f(1, 1), f(1, 2), f(2, 0), f(2, 1), f(2, 2),
    );
    lemma_times_expanded3_000000(
        f(0, 0), f(1, 1), f(1, 2), f(1, 3), f(2, 1), f(2, 2), f(2, 3), f(3, 1), f(3, 2), f(3, 3),
    );
    lemma_times_expanded3_000000(
        f(0, 1), f(1, 0), f(1, 2), f(1, 3), f(2, 0), f(2, 2), f(2, 3), f(3, 0), f(3, 2), f(3, 3),
    );
    lemma_times_expanded3_000000(
        f(0, 2), f(1, 0), f(1, 1), f(1, 3), f(2, 0), f(2, 1), f(2, 3), f(3, 0), f(3, 1), f(3, 3),
    );
    lemma_times_expanded3_000000(
        f(0, 3), f(1, 0), f(1, 1), f(1, 2), f(2, 0), f(2, 1), f(2, 2), f(3, 0), f(3, 1), f(3, 2),
    );
    assert(product4(f, adjugate4(f))(3, 0) == 0);
    assert(product4(f, adjugate4(f))(3, 1) == 0);
    assert(product4(f, adjugate4(f))(3, 2) == 0);
    assert(product4(f, adjugate4(f))(3, 3) == det4(f));
}

proof fn lemma_adjugate_times_matrix_row0(f: Entries)
    ensures
        product4(adjugate4(f), f)(0, 0) == det4(f),
        product4(adjugate4(f), f)(0, 1) == 0,
        product4(adjugate4(f), f)(0, 2) == 0,
        product4(adjugate4(f), f)(0, 3) == 0,
{
    lemma_cofactors_expanded(f);
    lemma_times_expanded3_000000(
        f(0, 0), f(1, 1), f(1, 2), f(1, 3), f(2, 1), f(2, 2), f(2, 3), f(3, 1), f(3, 2), f(3, 3),
    );
    lemma_times_expanded3_111111(
        f(1, 0), f(0, 1), f(0, 2), f(0, 3), f(2, 1), f(2, 2), f(2, 3), f(3, 1), f(3, 2), f(3, 3),
    );
    lemma_times_expanded3_222222(
        f(2, 0), f(0, 1), f(0, 2), f(0, 3), f(1, 1), f(1, 2), f(1, 3), f(3, 1), f(3, 2), f(3, 3),
    );
    lemma_times_expanded3_333333(
        f(3, 0), f(0, 1), f(0, 2), f(0, 3), f(1, 1), f(1, 2), f(1, 3), f(2, 1), f(2, 2), f(2, 3),
    );
    lemma_times_expanded3_000000(
        f(0, 1), f(1, 0), f(1, 2), f(1, 3), f(2, 0), f(2, 2), f(2, 3), f(3, 0), f(3, 2), f(3, 3),
    );
    lemma_times_expanded3_000000(
        f(0, 2), f(1, 0), f(1, 1), f(1, 3), f(2, 0), f(2, 1), f(2, 3), f(3, 0), f(3, 1), f(3, 3),
    );
    lemma_times_expanded3_000000(
        f(0, 3), f(1, 0), f(1, 1), f(1, 2), f(2, 0), f(2, 1), f(2, 2), f(3, 0), f(3, 1), f(3, 2),
    );
    lemma_times_expanded3_000000(
        f(0, 1), f(1, 1), f(1, 2), f(1, 3), f(2, 1), f(2, 2), f(2, 3), f(3, 1), f(3, 2), f(3, 3),
    );
    lemma_times_expanded3_111111(
        f(1, 1), f(0, 1), f(0, 2), f(0, 3), f(2, 1), f(2, 2), f(2, 3), f(3, 1), f(3, 2), f(3, 3),
    );
    lemma_times_expanded3_222222(
        f(2, 1), f(0, 1), f(0, 2), f(0, 3), f(1, 1), f(1, 2), f(1, 3), f(3, 1), f(3, 2), f(3, 3),
    );
    lemma_times_expanded3_333333(
        f(3, 1), f(0, 1), f(0, 2), f(0, 3), f(1, 1), f(1, 2), f(1, 3), f(2, 1), f(2, 2), f(2, 3),
    );
    lemma_times_expanded3_000000(
        f(0, 2), f(1, 1), f(1, 2), f(1, 3), f(2, 1), f(2, 2), f(2, 3), f(3, 1), f(3, 2), f(3, 3),
    );
    lemma_times_expanded3_111111(
        f(1, 2), f(0, 1), f(0, 2), f(0, 3), f(2, 1), f(2, 2), f(2, 3), f(3, 1), f(3, 2), f(3, 3),
    );
    lemma_times_expanded3_222222(
        f(2, 2), f(0, 1), f(0, 2), f(0, 3), f(1, 1), f(1, 2), f(1, 3), f(3, 1), f(3, 2), f(3, 3),
    );
    lemma_times_expanded3_333333(
        f(3, 2), f(0, 1), f(0, 2), f(0, 3), f(1, 1), f(1, 2), f(1, 3), f(2, 1), f(2, 2), f(2, 3),
    );
    lemma_times_expanded3_000000(
        f(0, 3), f(1, 1), f(1, 2), f(1, 3), f(2, 1), f(2, 2), f(2, 3), f(3, 1), f(3, 2), f(3, 3),
    );
    lemma_times_expanded3_111111(
        f(1, 3), f(0, 1), f(0, 2), f(0, 3), f(2, 1), f(2, 2), f(2, 3), f(3, 1), f(3, 2), f(3, 3),
    );
    lemma_times_expanded3_222222(
        f(2, 3), f(0, 1), f(0, 2), f(0, 3), f(1, 1), f(1, 2), f(1, 3), f(3, 1), f(3, 2), f(3, 3),
    );
    lemma_times_expanded3_333333(
        f(3, 3), f(0, 1), f(0, 2), f(0, 3), f(1, 1), f(1, 2), f(1, 3), f(2, 1), f(2, 2), f(2, 3),
    );
    assert(product4(adjugate4(f), f)(0, 0) == det4(f));
    assert(product4(adjugate4(f), f)(0, 1) == 0);
    assert(product4(adjugate4(f), f)(0, 2) == 0);
    assert(product4(adjugate4(f), f)(0, 3) == 0);
}

proof fn lemma_adjugate_times_matrix_row1(f: Entries)
    ensures
        product4(adjugate4(f), f)(1, 0) == 0,
        product4(adjugate4(f), f)(1, 1) == det4(f),
        product4(adjugate4(f), f)(1, 2) == 0,
        product4(adjugate4(f), f)(1, 3) == 0,
{
    lemma_cofactors_expanded(f);
    lemma_times_expanded3_000000(
        f(0, 0), f(1, 0), f(1, 2), f(1, 3), f(2, 0), f(2, 2), f(2, 3), f(3, 0), f(3, 2), f(3, 3),
    );
    lemma_times_expanded3_111111(
        f(1, 0), f(0, 0), f(0, 2), f(0, 3), f(2, 0), f(2, 2), f(2, 3), f(3, 0), f(3, 2), f(3, 3),
    );
    lemma_times_expanded3_222222(
        f(2, 0), f(0, 0), f(0, 2), f(0, 3), f(1, 0), f(1, 2), f(1, 3), f(3, 0), f(3, 2), f(3, 3),
    );
    lemma_times_expanded3_333333(
        f(3, 0), f(0, 0), f(0, 2), f(0, 3), f(1, 0), f(1, 2), f(1, 3), f(2, 0), f(2, 2), f(2, 3),
    );
    lemma_times_expanded3_000000(
        f(0, 1), f(1, 0), f(1, 2), f(1, 3), f(2, 0), f(2, 2), f(2, 3), f(3, 0), f(3, 2), f(3, 3),
    );
    lemma_times_expanded3_111111(
        f(1, 1), f(0, 0), f(0, 2), f(0, 3), f(2, 0), f(2, 2), f(2, 3), f(3, 0), f(3, 2), f(3, 3),
    );
    lemma_times_expanded3_222222(
        f(2, 1), f(0, 0), f(0, 2), f(0, 3), f(1, 0), f(1, 2), f(1, 3), f(3, 0), f(3, 2), f(3, 3),
    );
    lemma_times_expanded3_333333(
        f(3, 1), f(0, 0), f(0, 2), f(0, 3), f(1, 0), f(1, 2), f(1, 3), f(2, 0), f(2, 2), f(2, 3),
    );
    lemma_times_expanded3_000000(
        f(0, 0), f(1, 1), f(1, 2), f(1, 3), f(2, 1), f(2, 2), f(2, 3), f(3, 1), f(3, 2), f(3, 3),
    );
    lemma_times_expanded3_000000(
        f(0, 2), f(1, 0), f(1, 1), f(1, 3), f(2, 0), f(2, 1), f(2, 3), f(3, 0), f(3, 1), f(3, 3),
    );
    lemma_times_expanded3_000000(
        f(0, 3), f(1, 0), f(1, 1), f(1, 2), f(2, 0), f(2, 1), f(2, 2), f(3, 0), f(3, 1), f(3, 2),
    );
    lemma_times_expanded3_000000(
        f(0, 2), f(1, 0), f(1, 2), f(1, 3), f(2, 0), f(2, 2), f(2, 3), f(3, 0), f(3, 2), f(3, 3),
    );
    lemma_times_expanded3_111111(
        f(1, 2), f(0, 0), f(0, 2), f(0, 3), f(2, 0), f(2, 2), f(2, 3), f(3, 0), f(3, 2), f(3, 3),
    );
    lemma_times_expanded3_222222(
        f(2, 2), f(0, 0), f(0, 2), f(0, 3), f(1, 0), f(1, 2), f(1, 3), f(3, 0), f(3, 2), f(3, 3),
    );
    lemma_times_expanded3_333333(
        f(3, 2), f(0, 0), f(0, 2), f(0, 3), f(1, 0), f(1, 2), f(1, 3), f(2, 0), f(2, 2), f(2, 3),
    );
    lemma_times_expanded3_000000(
        f(0, 3), f(1, 0), f(1, 2), f(1, 3), f(2, 0), f(2, 2), f(2, 3), f(3, 0), f(3, 2), f(3, 3),
    );
    lemma_times_expanded3_111111(
        f(1, 3), f(0, 0), f(0, 2), f(0, 3), f(2, 0), f(2, 2), f(2, 3), f(3, 0), f(3, 2), f(3, 3),
    );
    lemma_times_expanded3_222222(
        f(2, 3), f(0, 0), f(0, 2), f(0, 3), f(1, 0), f(1, 2), f(1, 3), f(3, 0), f(3, 2), f(3, 3),
    );
    lemma_times_expanded3_333333(
        f(3, 3), f(0, 0), f(0, 2), f(0, 3), f(1, 0), f(1, 2), f(1, 3), f(2, 0), f(2, 2), f(2, 3),
    );
    assert(product4(adjugate4(f), f)(1, 0) == 0);
    assert(product4(adjugate4(f), f)(1, 1) == det4(f));
    assert(product4(adjugate4(f), f)(1, 2) == 0);
    assert(product4(adjugate4(f), f)(1, 3) == 0);
}

proof fn lemma_adjugate_times_matrix_row2(f: Entries)
    ensures
        product4(adjugate4(f), f)(2, 0) == 0,
        product4(adjugate4(f), f)(2, 1) == 0,
        product4(adjugate4(f), f)(2, 2) == det4(f),
        product4(adjugate4(f), f)(2, 3) == 0,
{
    lemma_cofactors_expanded(f);
    lemma_times_expanded3_000000(
        f(0, 0), f(1, 0), f(1, 1), f(1, 3), f(2, 0), f(2, 1), f(2, 3), f(3, 0), f(3, 1), f(3, 3),
    );
    lemma_times_expanded3_111111(
        f(1, 0), f(0, 0), f(0, 1), f(0, 3), f(2, 0), f(2, 1), f(2, 3), f(3, 0), f(3, 1), f(3, 3),
    );
    lemma_times_expanded3_222222(
        f(2, 0), f(0, 0), f(0, 1), f(0, 3), f(1, 0), f(1, 1), f(1, 3), f(3, 0), f(3, 1), f(3, 3),
    );
    lemma_times_expanded3_333333(
        f(3, 0), f(0, 0), f(0, 1), f(0, 3), f(1, 0), f(1, 1), f(1, 3), f(2, 0), f(2, 1), f(2, 3),
    );
    lemma_times_expanded3_000000(
        f(0, 1), f(1, 0), f(1, 1), f(1, 3), f(2, 0), f(2, 1), f(2, 3), f(3, 0), f(3, 1), f(3, 3),
    );
    lemma_times_expanded3_111111(
        f(1, 1), f(0, 0), f(0, 1), f(0, 3), f(2, 0), f(2, 1), f(2, 3), f(3, 0), f(3, 1), f(3, 3),
    );
    lemma_times_expanded3_222222(
        f(2, 1), f(0, 0), f(0, 1), f(0, 3), f(1, 0), f(1, 1), f(1, 3), f(3, 0), f(3, 1), f(3, 3),
    );
    lemma_times_expanded3_333333(
        f(3, 1), f(0, 0), f(0, 1), f(0, 3), f(1, 0), f(1, 1), f(1, 3), f(2, 0), f(2, 1), f(2, 3),
    );
    lemma_times_expanded3_000000(
        f(0, 2), f(1, 0), f(1, 1), f(1, 3), f(2, 0), f(2, 1), f(2, 3), f(3, 0), f(3, 1), f(3, 3),
    );
    lemma_times_expanded3_111111(
        f(1, 2), f(0, 0), f(0, 1), f(0, 3), f(2, 0), f(2, 1), f(2, 3), f(3, 0), f(3, 1), f(3, 3),
    );
    lemma_times_expanded3_222222(
        f(2, 2), f(0, 0), f(0, 1), f(0, 3), f(1, 0), f(1, 1), f(1, 3), f(3, 0), f(3, 1), f(3, 3),
    );
    lemma_times_expanded3_333333(
        f(3, 2), f(0, 0), f(0, 1), f(0, 3), f(1, 0), f(1, 1), f(1, 3), f(2, 0), f(2, 1), f(2, 3),
    );
    lemma_times_expanded3_000000(
        f(0, 0), f(1, 1), f(1, 2), f(1, 3), f(2, 1), f(2, 2), f(2, 3), f(3, 1), f(3, 2), f(3, 3),
    );
    lemma_times_expanded3_000000(
        f(0, 1), f(1, 0), f(1, 2), f(1, 3), f(2, 0), f(2, 2), f(2, 3), f(3, 0), f(3, 2), f(3, 3),
    );
    lemma_times_expanded3_000000(
        f(0, 3), f(1, 0), f(1, 1), f(1, 2), f(2, 0), f(2, 1), f(2, 2), f(3, 0), f(3, 1), f(3, 2),
    );
    lemma_times_expanded3_000000(
        f(0, 3), f(1, 0), f(1, 1), f(1, 3), f(2, 0), f(2, 1), f(2, 3), f(3, 0), f(3, 1), f(3, 3),
    );
    lemma_times_expanded3_111111(
        f(1, 3), f(0, 0), f(0, 1), f(0, 3), f(2, 0), f(2, 1), f(2, 3), f(3, 0), f(3, 1), f(3, 3),
    );
    lemma_times_expanded3_222222(
        f(2, 3), f(0, 0), f(0, 1), f(0, 3), f(1, 0), f(1, 1), f(1, 3), f(3, 0), f(3, 1), f(3, 3),
    );
    lemma_times_expanded3_333333(
        f(3, 3), f(0, 0), f(0, 1), f(0, 3), f(1, 0), f(1, 1), f(1, 3), f(2, 0), f(2, 1), f(2, 3),
    );
    assert(product4(adjugate4(f), f)(2, 0) == 0);
    assert(product4(adjugate4(f), f)(2, 1) == 0);
    assert(product4(adjugate4(f), f)(2, 2) == det4(f));
    assert(product4(adjugate4(f), f)(2, 3) == 0);
}

proof fn lemma_adjugate_times_matrix_row3(f: Entries)
    ensures
        product4(adjugate4(f), f)(3, 0) == 0,
        product4(adjugate4(f), f)(3, 1) == 0,
        product4(adjugate4(f), f)(3, 2) == 0,
        product4(adjugate4(f), f)(3, 3) == det4(f),
{
    lemma_cofactors_expanded(f);
    lemma_times_expanded3_000000(
        f(0, 0), f(1, 0), f(1, 1), f(1, 2), f(2, 0), f(2, 1), f(2, 2), f(3, 0), f(3, 1), f(3, 2),
    );
    lemma_times_expanded3_111111(
        f(1, 0), f(0, 0), f(0, 1), f(0, 2), f(2, 0), f(2, 1), f(2, 2), f(3, 0), f(3, 1), f(3, 2),
    );
    lemma_times_expanded3_222222(
        f(2, 0), f(0, 0), f(0, 1), f(0, 2), f(1, 0), f(1, 1), f(1, 2), f(3, 0), f(3, 1), f(3, 2),
    );
    lemma_times_expanded3_333333(
        f(3, 0), f(0, 0), f(0, 1), f(0, 2), f(1, 0), f(1, 1), f(1, 2), f(2, 0), f(2, 1), f(2, 2),
    );
    lemma_times_expanded3_000000(
        f(0, 1), f(1, 0), f(1, 1), f(1, 2), f(2, 0), f(2, 1), f(2, 2), f(3, 0), f(3, 1), f(3, 2),
    );
    lemma_times_expanded3_111111(
        f(1, 1), f(0, 0), f(0, 1), f(0, 2), f(2, 0), f(2, 1), f(2, 2), f(3, 0), f(3, 1), f(3, 2),
    );
    lemma_times_expanded3_222222(
        f(2, 1), f(0, 0), f(0, 1), f(0, 2), f(1, 0), f(1, 1), f(1, 2), f(3, 0), f(3, 1), f(3, 2),
    );
    lemma_times_expanded3_333333(
        f(3, 1), f(0, 0), f(0, 1), f(0, 2), f(1, 0), f(1, 1), f(1, 2), f(2, 0), f(2, 1), f(2, 2),
    );
    lemma_times_expanded3_000000(
        f(0, 2), f(1, 0), f(1, 1), f(1, 2), f(2, 0), f(2, 1), f(2, 2), f(3, 0), f(3, 1), f(3, 2),
    );
    lemma_times_expanded3_111111(
        f(1, 2), f(0, 0), f(0, 1), f(0, 2), f(2, 0), f(2, 1), f(2, 2), f(3, 0), f(3, 1), f(3, 2),
    );
    lemma_times_expanded3_222222(
        f(2, 2), f(0, 0), f(0, 1), f(0, 2), f(1, 0), f(1, 1), f(1, 2), f(3, 0), f(3, 1), f(3, 2),
    );
    lemma_times_expanded3_333333(
        f(3, 2), f(0, 0), f(0, 1), f(0, 2), f(1, 0), f(1, 1), f(1, 2), f(2, 0), f(2, 1), f(2, 2),
    );
    lemma_times_expanded3_000000(
        f(0, 3), f(1, 0), f(1, 1), f(1, 2), f(2, 0), f(2, 1), f(2, 2), f(3, 0), f(3, 1), f(3, 2),
    );
    lemma_times_expanded3_111111(
        f(1, 3), f(0, 0), f(0, 1), f(0, 2), f(2, 0), f(2, 1), f(2, 2), f(3, 0), f(3, 1), f(3, 2),
    );
    lemma_times_expanded3_222222(
        f(2, 3), f(0, 0), f(0, 1), f(0, 2), f(1, 0), f(1, 1), f(1, 2), f(3, 0), f(3, 1), f(3, 2),
    );
    lemma_times_expanded3_333333(
        f(3, 3), f(0, 0), f(0, 1), f(0, 2), f(1, 0), f(1, 1), f(1, 2), f(2, 0), f(2, 1), f(2, 2),
    );
    lemma_times_expanded3_000000(
        f(0, 0), f(1, 1), f(1, 2), f(1, 3), f(2, 1), f(2, 2), f(2, 3), f(3, 1), f(3, 2), f(3, 3),
    );
    lemma_times_expanded3_000000(
        f(0, 1), f(1, 0), f(1, 2), f(1, 3), f(2, 0), f(2, 2), f(2, 3), f(3, 0), f(3, 2), f(3, 3),
    );
    lemma_times_expanded3_000000(
        f(0, 2), f(1, 0), f(1, 1), f(1, 3), f(2, 0), f(2, 1), f(2, 3), f(3, 0), f(3, 1), f(3, 3),
    );
    assert(product4(adjugate4(f), f)(3, 0) == 0);
    assert(product4(adjugate4(f), f)(3, 1) == 0);
    assert(product4(adjugate4(f), f)(3, 2) == 0);
    assert(product4(adjugate4(f), f)(3, 3) == det4(f));
}

/// A matrix times its adjugate, on either side, is its determinant times
/// the identity: where the determinant is not zero, the adjugate over the
/// determinant is the inverse from both sides.
pub proof fn lemma_adjugate_inverts(m: Matrix4)
    ensures
        forall|i: int, j: int|
            0 <= i < 4 && 0 <= j < 4 ==> #[trigger] product4(m.entries(), adjugate4(m.entries()))(
                i,
                j,
            ) == if i == j {
                det4(m.entries())
            } else {
                0
            },
        forall|i: int, j: int|
            0 <= i < 4 && 0 <= j < 4 ==> #[trigger] product4(adjugate4(m.entries()), m.entries())(
                i,
                j,
            ) == if i == j {
                det4(m.entries())
            } else {
                0
            },
{
    let f = m.entries();
    lemma_matrix_times_adjugate_row0(f);
    lemma_matrix_times_adjugate_row1(f);
    lemma_matrix_times_adjugate_row2(f);
    lemma_matrix_times_adjugate_row3(f);
    lemma_adjugate_times_matrix_row0(f);
    lemma_adjugate_times_matrix_row1(f);
    lemma_adjugate_times_matrix_row2(f);
    lemma_adjugate_times_matrix_row3(f);
}

} // verus!
