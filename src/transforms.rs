use vstd::prelude::*;

use crate::matrix4::Matrix4;
use crate::model::{apply4, product4, Entries};

verus! {

/// Builders of the matrices of affine transforms.
///
/// A tuple multiplied by a product of transforms goes through the rightmost
/// one first: `translation * scaling * shearing` shears, then scales, then
/// translates.
pub struct Transforms {}

impl Transforms {
    /// Moves a point by (x, y, z); leaves vectors unchanged.
    pub fn translation(x: i64, y: i64, z: i64) -> (r: Matrix4)
        ensures
            r.data == [[1, 0, 0, x], [0, 1, 0, y], [0, 0, 1, z], [0i64, 0, 0, 1]],
    {
        Matrix4::from([[1, 0, 0, x], [0, 1, 0, y], [0, 0, 1, z], [0, 0, 0, 1]])
    }

    /// Multiplies the coordinates by x, y and z.
    pub fn scaling(x: i64, y: i64, z: i64) -> (r: Matrix4)
        ensures
            r.data == [[x, 0, 0, 0], [0, y, 0, 0], [0, 0, z, 0], [0i64, 0, 0, 1]],
    {
        Matrix4::from([[x, 0, 0, 0], [0, y, 0, 0], [0, 0, z, 0], [0, 0, 0, 1]])
    }

    /// Moves each coordinate in proportion to the others: `xy` is the share
    /// of y added to x, and so on.
    pub fn shearing(xy: i64, xz: i64, yx: i64, yz: i64, zx: i64, zy: i64) -> (r: Matrix4)
        ensures
            r.data == [[1, xy, xz, 0], [yx, 1, yz, 0], [zx, zy, 1, 0], [0i64, 0, 0, 1]],
    {
        Matrix4::from([[1, xy, xz, 0], [yx, 1, yz, 0], [zx, zy, 1, 0], [0, 0, 0, 1]])
    }
}

proof fn lemma_sum4_times(a: int, b: int, c: int, d: int, x: int)
    ensures
        (a + b + c + d) * x == a * x + b * x + c * x + d * x,
{
    assert((a + b + c + d) * x == a * x + b * x + c * x + d * x) by (nonlinear_arith);
}

proof fn lemma_times_sum4(x: int, a: int, b: int, c: int, d: int)
    ensures
        x * (a + b + c + d) == x * a + x * b + x * c + x * d,
{
    assert(x * (a + b + c + d) == x * a + x * b + x * c + x * d) by (nonlinear_arith);
}

proof fn lemma_mul_assoc(a: int, b: int, c: int)
    ensures
        a * (b * c) == a * b * c,
{
    assert(a * (b * c) == a * b * c) by (nonlinear_arith);
}

/// Row `i` of `f · g` applied to a column is row `i` of `f` applied to `g`
/// applied to that column.
proof fn lemma_product_row(f: Entries, g: Entries, i: int, x: int, y: int, z: int, w: int)
    ensures
        apply4(product4(f, g), i, x, y, z, w) == apply4(
            f,
            i,
            apply4(g, 0, x, y, z, w),
            apply4(g, 1, x, y, z, w),
            apply4(g, 2, x, y, z, w),
            apply4(g, 3, x, y, z, w),
        ),
{
    let a0 = f(i, 0);
    let a1 = f(i, 1);
    let a2 = f(i, 2);
    let a3 = f(i, 3);
    lemma_sum4_times(a0 * g(0, 0), a1 * g(1, 0), a2 * g(2, 0), a3 * g(3, 0), x);
    lemma_sum4_times(a0 * g(0, 1), a1 * g(1, 1), a2 * g(2, 1), a3 * g(3, 1), y);
    lemma_sum4_times(a0 * g(0, 2), a1 * g(1, 2), a2 * g(2, 2), a3 * g(3, 2), z);
    lemma_sum4_times(a0 * g(0, 3), a1 * g(1, 3), a2 * g(2, 3), a3 * g(3, 3), w);
    lemma_times_sum4(a0, g(0, 0) * x, g(0, 1) * y, g(0, 2) * z, g(0, 3) * w);
    lemma_times_sum4(a1, g(1, 0) * x, g(1, 1) * y, g(1, 2) * z, g(1, 3) * w);
    lemma_times_sum4(a2, g(2, 0) * x, g(2, 1) * y, g(2, 2) * z, g(2, 3) * w);
    lemma_times_sum4(a3, g(3, 0) * x, g(3, 1) * y, g(3, 2) * z, g(3, 3) * w);
    lemma_mul_assoc(a0, g(0, 0), x);
    lemma_mul_assoc(a0, g(0, 1), y);
    lemma_mul_assoc(a0, g(0, 2), z);
    lemma_mul_assoc(a0, g(0, 3), w);
    lemma_mul_assoc(a1, g(1, 0), x);
    lemma_mul_assoc(a1, g(1, 1), y);
    lemma_mul_assoc(a1, g(1, 2), z);
    lemma_mul_assoc(a1, g(1, 3), w);
    lemma_mul_assoc(a2, g(2, 0), x);
    lemma_mul_assoc(a2, g(2, 1), y);
    lemma_mul_assoc(a2, g(2, 2), z);
    lemma_mul_assoc(a2, g(2, 3), w);
    lemma_mul_assoc(a3, g(3, 0), x);
    lemma_mul_assoc(a3, g(3, 1), y);
    lemma_mul_assoc(a3, g(3, 2), z);
    lemma_mul_assoc(a3, g(3, 3), w);
}

/// A product of transforms applies its right factor first: `a · b` applied
/// to the column (x, y, z, w) is `a` applied to `b` applied to it. So
/// `translation · scaling · shearing` shears, then scales, then translates.
pub proof fn lemma_product_applies_right_first(
    a: Matrix4,
    b: Matrix4,
    x: int,
    y: int,
    z: int,
    w: int,
)
    ensures
        forall|i: int|
            0 <= i < 4 ==> #[trigger] apply4(product4(a.entries(), b.entries()), i, x, y, z, w)
                == apply4(
                a.entries(),
                i,
                apply4(b.entries(), 0, x, y, z, w),
                apply4(b.entries(), 1, x, y, z, w),
                apply4(b.entries(), 2, x, y, z, w),
                apply4(b.entries(), 3, x, y, z, w),
            ),
{
    assert forall|i: int| 0 <= i < 4 implies #[trigger] apply4(
        product4(a.entries(), b.entries()),
        i,
        x,
        y,
        z,
        w,
    ) == apply4(
        a.entries(),
        i,
        apply4(b.entries(), 0, x, y, z, w),
        apply4(b.entries(), 1, x, y, z, w),
        apply4(b.entries(), 2, x, y, z, w),
        apply4(b.entries(), 3, x, y, z, w),
    ) by {
        lemma_product_row(a.entries(), b.entries(), i, x, y, z, w);
    }
}

} // verus!
