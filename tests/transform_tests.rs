use raytracer_rust::matrix4::Matrix4;
use raytracer_rust::point::Point;
use raytracer_rust::transforms::Transforms;
use raytracer_rust::vector::Vector;

#[test]
fn multiplying_point_by_translation() {
    let p = Point::new(-3, 4, 5);
    let t = Transforms::translation(5, -3, 2);

    let actual = t.mul_point(&p);
    let expected = Point::new(2, 1, 7);

    assert_eq!(expected, actual);
}

#[test]
fn multiplying_point_by_inverse_translation() {
    let p = Point::new(-3, 4, 5);
    let t = Transforms::translation(5, -3, 2);
    let inv = t.inverse().unwrap();

    // a translation has determinant 1: its adjugate is its inverse
    assert_eq!(inv.determinant, 1);
    let actual = inv.adjugate.mul_point(&p);
    let expected = Point::new(-8, 7, 3);

    assert_eq!(expected, actual);
}

#[test]
fn inverse_translation_restores_the_point() {
    let t = Transforms::translation(5, -3, 2);
    let moved = t.mul_point(&Point::new(-3, 4, 5));
    assert_eq!(moved, Point::new(2, 1, 7));
    let inv = t.inverse().unwrap();
    assert_eq!(inv.determinant, 1);
    assert_eq!(inv.adjugate.mul_point(&moved), Point::new(-3, 4, 5));
}

#[test]
fn translation_leaves_vectors_alone() {
    let t = Transforms::translation(5, -3, 2);
    let v = Vector::new(-3, 4, 5);
    assert_eq!(t.mul_vector(&v), v);
}

#[test]
fn multiplying_vector_by_scaling() {
    let v = Vector::new(-4, 6, 8);
    let t = Transforms::scaling(2, 3, 4);

    let actual = t.mul_vector(&v);
    let expected = Vector::new(-8, 18, 32);

    assert_eq!(expected, actual);
}

#[test]
fn multiplying_vector_by_inverse_scaling() {
    let v = Vector::new(-4, 6, 8);
    let t = Transforms::scaling(2, 3, 4);
    let inv = t.inverse().unwrap();

    // the adjugate is the inverse scaled by the determinant
    let actual = inv.adjugate.mul_vector(&v);
    let expected = Vector::new(-2, 2, 2);

    assert_eq!(inv.determinant, 24);
    assert_eq!(expected.scale(inv.determinant), actual);
}

#[test]
fn multiplying_by_negative_scaling_is_reflection() {
    let p = Point::new(2, 3, 4);
    let t = Transforms::scaling(-1, 1, 1);

    let actual = t.mul_point(&p);
    let expected = Point::new(-2, 3, 4);

    assert_eq!(expected, actual);
}

#[test]
fn shearing_tuples() {
    let s = Transforms::shearing(0, 1, 0, 0, 0, 0);
    let p = Point::new(2, 3, 4);

    let actual = s.mul_point(&p);
    let expected = Point::new(6, 3, 4);

    assert_eq!(expected, actual);

    let s = Transforms::shearing(0, 0, 1, 0, 0, 0);

    let actual = s.mul_point(&p);
    let expected = Point::new(2, 5, 4);

    assert_eq!(expected, actual);

    let s = Transforms::shearing(0, 0, 0, 1, 0, 0);

    let actual = s.mul_point(&p);
    let expected = Point::new(2, 7, 4);

    assert_eq!(expected, actual);

    let s = Transforms::shearing(0, 0, 0, 0, 1, 0);

    let actual = s.mul_point(&p);
    let expected = Point::new(2, 3, 6);

    assert_eq!(expected, actual);

    let s = Transforms::shearing(0, 0, 0, 0, 0, 1);

    let actual = s.mul_point(&p);
    let expected = Point::new(2, 3, 7);

    assert_eq!(expected, actual);
}

#[test]
fn chained_transforms_apply_right_to_left() {
    let p = Point::new(1, 2, 1);
    let shear = Transforms::shearing(1, 0, 0, 0, 0, 0);
    let scale = Transforms::scaling(5, 5, 5);
    let translate = Transforms::translation(10, 5, 7);

    let p2 = shear.mul_point(&p);
    assert_eq!(p2, Point::new(3, 2, 1));
    let p3 = scale.mul_point(&p2);
    assert_eq!(p3, Point::new(15, 10, 5));
    let p4 = translate.mul_point(&p3);
    assert_eq!(p4, Point::new(25, 15, 12));

    let combined = translate.mul_matrix(&scale).mul_matrix(&shear);
    assert_eq!(combined.mul_point(&p), Point::new(25, 15, 12));

    let other_order = shear.mul_matrix(&scale).mul_matrix(&translate);
    assert_ne!(other_order, combined);
    assert_ne!(Matrix4::identity(), combined);
}
