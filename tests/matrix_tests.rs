use float_cmp::{ApproxEq, F64Margin};
use raytracer_rust::error::MathError;
use raytracer_rust::matrix2::Matrix2;
use raytracer_rust::matrix3::Matrix3;
use raytracer_rust::matrix4::Matrix4;
use raytracer_rust::point::Point;
use raytracer_rust::vector::Vector;

const MARGIN: F64Margin = F64Margin {
    epsilon: 1e-5,
    ulps: 4,
};

fn sample4() -> Matrix4 {
    Matrix4::from([
        [1, 2, 3, 4],
        [5, 6, 7, 8],
        [9, 8, 7, 6],
        [5, 4, 3, 2],
    ])
}

fn expansion_sample4() -> Matrix4 {
    Matrix4::from([
        [-2, -8, 3, 5],
        [-3, 1, 7, 3],
        [1, 2, -9, 6],
        [-6, 7, 7, -9],
    ])
}

/// Entry by entry, the inverse held as adjugate over determinant is close to `expected`.
fn assert_inverse_close(m: &Matrix4, expected: [[f64; 4]; 4]) {
    let inv = m.inverse().unwrap();
    for row in 0..4 {
        for col in 0..4 {
            let actual = inv.adjugate.data[row][col] as f64 / inv.determinant as f64;
            assert!(
                actual.approx_eq(expected[row][col], MARGIN),
                "entry ({}, {}): {} against {}",
                row,
                col,
                actual,
                expected[row][col]
            );
        }
    }
}

#[test]
fn determinant_of_matrix2() {
    let m = Matrix2::from([[1, 5], [-3, 2]]);

    assert_eq!(m.determinant(), 17);
}

#[test]
fn submatrix_from_matrix3_is_matrix2() {
    let m = Matrix3::from([[1, 5, 0], [-3, 2, 7], [0, 6, -3]]);

    let m_sub = m.submatrix(0, 2).unwrap();

    let expected = Matrix2::from([[-3, 2], [0, 6]]);

    assert_eq!(m_sub, expected);
}

#[test]
fn minor_of_matrix3() {
    let m = Matrix3::from([[3, 5, 0], [2, -1, -7], [6, -1, 5]]);

    let m_sub = m.submatrix(1, 0).unwrap();

    assert_eq!(m_sub.determinant(), m.minor(1, 0));
    assert_eq!(m.minor(1, 0), 25);
}

#[test]
fn cofactor_of_matrix3() {
    let m = Matrix3::from([[3, 5, 0], [2, -1, -7], [6, -1, 5]]);

    let m_cof = m.cofactor(0, 0);
    let m_min = m.minor(0, 0);

    assert_eq!(m_cof, -12);
    assert_eq!(m_cof, m_min);

    let m_cof = m.cofactor(1, 0);
    let m_min = m.minor(1, 0);

    assert_eq!(m_cof, -25);
    assert_eq!(m_cof, -m_min);

    let m = Matrix3::from([[1, 2, 6], [-5, 8, -4], [2, 6, 4]]);

    assert_eq!(m.cofactor(0, 0), 56);
    assert_eq!(m.cofactor(0, 1), 12);
    assert_eq!(m.cofactor(0, 2), -46);
}

#[test]
fn determinant_of_matrix3() {
    let m = Matrix3::from([[1, 2, 6], [-5, 8, -4], [2, 6, 4]]);

    assert_eq!(m.determinant(), -196);
}

#[test]
fn multiply_two_matrix4() {
    let m1 = sample4();

    let m2 = Matrix4::from([
        [-2, 1, 2, 3],
        [3, 2, 1, -1],
        [4, 3, 6, 5],
        [1, 2, 7, 8],
    ]);

    let expected = Matrix4::from([
        [20, 22, 50, 48],
        [44, 54, 114, 108],
        [40, 58, 110, 102],
        [16, 26, 46, 42],
    ]);

    assert_eq!(m1.mul_matrix(&m2), expected);
}

#[test]
fn create_matrix4_identity() {
    let expected = Matrix4::from([
        [1, 0, 0, 0],
        [0, 1, 0, 0],
        [0, 0, 1, 0],
        [0, 0, 0, 1],
    ]);

    assert_eq!(Matrix4::identity(), expected)
}

#[test]
fn multiply_matrix4_by_identity_yields_same_result() {
    let m = sample4();

    assert_eq!(m.mul_matrix(&Matrix4::identity()), m);
}

#[test]
fn multiply_matrix4_by_point() {
    let m = Matrix4::from([
        [1, 2, 3, 4],
        [2, 4, 4, 2],
        [8, 6, 4, 1],
        [0, 0, 0, 1],
    ]);

    let p = Point::new(1, 2, 3);

    let actual = m.mul_point(&p);
    let expected = Point::new(18, 24, 33);

    assert_eq!(expected, actual);
}

#[test]
fn multiply_matrix4_by_vector() {
    let m = Matrix4::from([
        [1, 2, 3, 4],
        [2, 4, 4, 2],
        [8, 6, 4, 1],
        [0, 0, 0, 1],
    ]);

    let v = Vector::new(1, 2, 3);

    let actual = m.mul_vector(&v);
    let expected = Vector::new(14, 22, 32);

    assert_eq!(expected, actual);
}

#[test]
fn transpose_matrix4() {
    let m = sample4();

    let expected = Matrix4::from([
        [1, 5, 9, 5],
        [2, 6, 8, 4],
        [3, 7, 7, 3],
        [4, 8, 6, 2],
    ]);

    assert_eq!(m.transposed(), expected);
}

#[test]
fn transpose_of_identity_is_identity() {
    assert_eq!(Matrix4::identity().transposed(), Matrix4::identity());
}

#[test]
fn submatrix_from_matrix4_is_matrix3() {
    let m = sample4();

    let m_sub = m.submatrix(2, 1).unwrap();

    let expected = Matrix3::from([[1, 3, 4], [5, 7, 8], [5, 3, 2]]);

    assert_eq!(m_sub, expected);
}

#[test]
fn minor_of_matrix4() {
    let m = expansion_sample4();

    assert_eq!(m.minor(0, 0), 690);
    assert_eq!(m.minor(1, 2), 431);
    assert_eq!(m.minor(2, 3), 207);
}

#[test]
fn cofactor_of_matrix4() {
    let m = expansion_sample4();

    assert_eq!(m.cofactor(0, 0), 690);
    assert_eq!(m.cofactor(0, 1), 447);
    assert_eq!(m.cofactor(0, 2), 210);
    assert_eq!(m.cofactor(0, 3), 51);
}

#[test]
fn determinant_of_matrix4() {
    let m = expansion_sample4();

    assert_eq!(m.determinant(), -4071);
}

#[test]
fn check_matrix4_is_invertible() {
    let m = Matrix4::from([
        [6, 4, 4, 4],
        [5, 5, 7, 6],
        [4, -9, 3, -7],
        [9, 1, 7, -6],
    ]);

    assert_eq!(m.determinant(), -2120);
    assert_eq!(m.is_invertible(), true);

    let m = Matrix4::from([
        [-4, 2, -2, -3],
        [9, 6, 2, 6],
        [0, -5, 1, -5],
        [0, 0, 0, 0],
    ]);

    assert_eq!(m.determinant(), 0);
    assert_eq!(m.is_invertible(), false);
}

#[test]
fn invert_matrix4() {
    let m = Matrix4::from([
        [-5, 2, 6, -8],
        [1, -5, 1, 8],
        [7, 7, -6, -7],
        [1, -3, 7, 4],
    ]);

    assert_inverse_close(
        &m,
        [
            [0.21805, 0.45113, 0.24060, -0.04511],
            [-0.80827, -1.45677, -0.44361, 0.52068],
            [-0.07895, -0.22368, -0.05263, 0.19737],
            [-0.52256, -0.81391, -0.30075, 0.30639],
        ],
    );

    let m = Matrix4::from([
        [8, -5, 9, 2],
        [7, 5, 6, 1],
        [-6, 0, 9, 6],
        [-3, 0, -9, -4],
    ]);

    assert_inverse_close(
        &m,
        [
            [-0.15385, -0.15385, -0.28205, -0.53846],
            [-0.07692, 0.12308, 0.02564, 0.03077],
            [0.35897, 0.35897, 0.43590, 0.92308],
            [-0.69231, -0.69231, -0.76923, -1.92308],
        ],
    );

    let m = Matrix4::from([
        [9, 3, 0, 9],
        [-5, -2, -6, -3],
        [-4, 9, 6, 4],
        [-7, 6, 6, 2],
    ]);

    assert_inverse_close(
        &m,
        [
            [-0.04074, -0.07778, 0.14444, -0.22222],
            [-0.07778, 0.03333, 0.36667, -0.33333],
            [-0.02901, -0.14630, -0.10926, 0.12963],
            [0.17778, 0.06667, -0.26667, 0.33333],
        ],
    );
}

#[test]
fn multiply_product_by_inverse() {
    let a = Matrix4::from([
        [3, -9, 7, 3],
        [3, -8, 2, -9],
        [-4, 4, 4, 1],
        [-6, 5, -1, 1],
    ]);

    let b = Matrix4::from([
        [8, 2, 2, 2],
        [3, -1, 7, 0],
        [7, 0, 5, 4],
        [6, -2, 0, 5],
    ]);

    let product = a.mul_matrix(&b);

    // note that order matters in matrix multiplication
    let inv = b.inverse().unwrap();
    let restored = product.mul_matrix(&inv.adjugate);
    for row in 0..4 {
        for col in 0..4 {
            assert_eq!(restored.data[row][col], a.data[row][col] * inv.determinant);
        }
    }
}

#[test]
fn matrix_times_adjugate_is_determinant_times_identity() {
    let m = expansion_sample4();
    let inv = m.inverse().unwrap();
    assert_eq!(inv.determinant, -4071);
    let left = m.mul_matrix(&inv.adjugate);
    let right = inv.adjugate.mul_matrix(&m);
    for row in 0..4 {
        for col in 0..4 {
            let expected = if row == col { -4071 } else { 0 };
            assert_eq!(left.data[row][col], expected);
            assert_eq!(right.data[row][col], expected);
        }
    }
}

#[test]
fn adjugate_holds_transposed_cofactors() {
    let m = expansion_sample4();
    let inv = m.inverse().unwrap();
    assert_eq!(inv.adjugate.data[0][0], 690);
    assert_eq!(inv.adjugate.data[1][0], 447);
    assert_eq!(inv.adjugate.data[2][0], 210);
    assert_eq!(inv.adjugate.data[3][0], 51);
    assert_eq!(inv.adjugate.data[2][1], m.cofactor(1, 2));
}

#[test]
fn singular_matrix_has_no_inverse() {
    let m = Matrix4::from([
        [-4, 2, -2, -3],
        [9, 6, 2, 6],
        [0, -5, 1, -5],
        [0, 0, 0, 0],
    ]);

    assert_eq!(m.inverse(), Err(MathError::NotInvertible));
}

#[test]
fn transpose_twice_gives_the_matrix_back() {
    let m = expansion_sample4();
    assert_eq!(m.transposed().transposed(), m);
}

#[test]
fn identity_is_neutral_on_the_left() {
    let m = expansion_sample4();
    assert_eq!(Matrix4::identity().mul_matrix(&m), m);
}

#[test]
fn determinant_of_identity_is_one() {
    assert_eq!(Matrix4::identity().determinant(), 1);
}

#[test]
fn zero_matrices_are_all_zero() {
    assert_eq!(Matrix2::new(), Matrix2::from([[0, 0], [0, 0]]));
    assert_eq!(Matrix3::new().determinant(), 0);
    assert_eq!(Matrix4::new().determinant(), 0);
}

#[test]
fn submatrix_outside_the_matrix_is_refused() {
    let m3 = Matrix3::from([[1, 5, 0], [-3, 2, 7], [0, 6, -3]]);
    assert_eq!(m3.submatrix(3, 0), Err(MathError::IndexOutOfRange));
    assert_eq!(m3.submatrix(0, 3), Err(MathError::IndexOutOfRange));
    let m4 = sample4();
    assert_eq!(m4.submatrix(4, 1), Err(MathError::IndexOutOfRange));
    assert_eq!(m4.submatrix(1, 4), Err(MathError::IndexOutOfRange));
}

#[test]
fn get_and_set_entries() {
    let mut m = sample4();
    assert_eq!(m.get(2, 1), Ok(8));
    assert_eq!(m.get(4, 0), Err(MathError::IndexOutOfRange));
    assert_eq!(m.set(2, 1, -7), Ok(()));
    assert_eq!(m.get(2, 1), Ok(-7));
    assert_eq!(m.get(1, 2), Ok(7));
    assert_eq!(m.set(0, 4, 1), Err(MathError::IndexOutOfRange));

    let mut m3 = Matrix3::new();
    assert_eq!(m3.set(1, 1, 5), Ok(()));
    assert_eq!(m3.get(1, 1), Ok(5));
    assert_eq!(m3.get(3, 3), Err(MathError::IndexOutOfRange));

    let mut m2 = Matrix2::new();
    assert_eq!(m2.set(0, 1, 3), Ok(()));
    assert_eq!(m2, Matrix2::from([[0, 3], [0, 0]]));
    assert_eq!(m2.set(2, 0, 3), Err(MathError::IndexOutOfRange));
}

#[test]
fn limits_of_the_entries() {
    assert!(sample4().within_limits());
    let mut m = sample4();
    m.set(3, 3, 16384).unwrap();
    assert!(m.within_limits());
    m.set(3, 3, 16385).unwrap();
    assert!(!m.within_limits());
    m.set(3, 3, -16385).unwrap();
    assert!(!m.within_limits());
}

#[test]
fn identities_and_transposes_of_smaller_matrices() {
    assert_eq!(Matrix2::identity(), Matrix2::from([[1, 0], [0, 1]]));
    assert_eq!(Matrix2::identity().determinant(), 1);
    assert_eq!(Matrix2::from([[1, 5], [-3, 2]]).transposed(), Matrix2::from([[1, -3], [5, 2]]));
    assert_eq!(
        Matrix3::identity(),
        Matrix3::from([[1, 0, 0], [0, 1, 0], [0, 0, 1]])
    );
    assert_eq!(Matrix3::identity().determinant(), 1);
    assert_eq!(
        Matrix3::from([[1, 2, 6], [-5, 8, -4], [2, 6, 4]]).transposed(),
        Matrix3::from([[1, -5, 2], [2, 8, 6], [6, -4, 4]])
    );
}
