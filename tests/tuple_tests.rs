use raytracer_rust::point::Point;
use raytracer_rust::ray::Ray;
use raytracer_rust::vector::Vector;

#[test]
fn point_sum_point_vector() {
    let point = Point::new(3, -2, 5);

    let vector = Vector::new(-2, 3, 1);

    let expected = Point::new(1, 1, 6);

    assert_eq!(point.add_vector(&vector), expected)
}

#[test]
fn point_sub_point_point() {
    let p1 = Point::new(3, 2, 1);

    let p2 = Point::new(5, 6, 7);

    let expected = Vector::new(-2, -4, -6);

    assert_eq!(p1.sub_point(&p2), expected);
}

#[test]
fn point_sub_point_vector() {
    let p1 = Point::new(3, 2, 1);

    let v1 = Vector::new(5, 6, 7);

    let expected = Point::new(-2, -4, -6);

    assert_eq!(p1.sub_vector(&v1), expected);
}

#[test]
fn point_negate_point() {
    let point = Point::new(1, -2, 3);

    let expected = Point::new(-1, 2, -3);

    assert_eq!(point.neg(), expected);
}

#[test]
fn multiply_point_by_f64() {
    let point = Point::new(1, -2, 3);

    let expected = Point::new(3, -6, 9);

    assert_eq!(point.scale(3), expected);
}

#[test]
fn vector_sum_vector_vector() {
    let v1 = Vector::new(3, -2, 5);
    let v2 = Vector::new(-2, 3, 1);

    let expected = Vector::new(1, 1, 6);

    assert_eq!(v1.add_vector(&v2), expected)
}

#[test]
fn vector_sum_vector_point() {
    let vector = Vector::new(-2, 3, 1);

    let point = Point::new(3, -2, 5);

    let expected = Point::new(1, 1, 6);

    assert_eq!(vector.add_point(&point), expected)
}

#[test]
fn vector_sub_vector_vector() {
    let v1 = Vector::new(3, 2, 1);

    let v2 = Vector::new(5, 6, 7);

    let expected = Vector::new(-2, -4, -6);

    assert_eq!(v1.sub_vector(&v2), expected);
}

#[test]
fn negate_vector() {
    let point = Vector::new(1, -2, 3);

    let expected = Vector::new(-1, 2, -3);

    assert_eq!(point.neg(), expected);
}

#[test]
fn dot_product() {
    let v1 = Vector::new(1, 2, 3);
    let v2 = Vector::new(2, 3, 4);

    assert_eq!(v1.dot(&v2), 20);
}

#[test]
fn multiply_vector_by_f64() {
    let vector = Vector::new(1, -2, 3);

    let expected = Vector::new(3, -6, 9);

    assert_eq!(vector.scale(3), expected);
}

#[test]
fn cross_product() {
    let v1 = Vector::new(1, 2, 3);
    let v2 = Vector::new(2, 3, 4);

    let expected = Vector::new(-1, 2, -1);

    assert_eq!(v1.cross(&v2), expected);
    assert_eq!(v2.cross(&v1), expected.neg());
}

#[test]
fn type_tags_follow_the_operands() {
    let p = Point::new(3, -2, 5);
    let q = Point::new(1, 1, 1);
    let v = Vector::new(-2, 3, 1);
    assert_eq!(p.w, 1);
    assert_eq!(v.w, 0);
    assert_eq!(p.add_vector(&v).w, 1);
    assert_eq!(v.add_point(&p).w, 1);
    assert_eq!(p.sub_point(&q).w, 0);
    assert_eq!(p.sub_vector(&v).w, 1);
    assert_eq!(v.add_vector(&v).w, 0);
    assert_eq!(v.sub_vector(&v).w, 0);
    assert_eq!(p.neg().w, 1);
    assert_eq!(v.neg().w, 0);
    assert_eq!(v.scale(5).w, 0);
}

#[test]
fn scaling_a_point_scales_its_tag() {
    let p = Point::new(1, -2, 3).scale(3);
    assert_eq!((p.x, p.y, p.z, p.w), (3, -6, 9, 3));
    // equality looks at x, y and z only
    assert_eq!(p, Point::new(3, -6, 9));
}

#[test]
fn moving_a_point_and_back_restores_it() {
    let p = Point::new(-3, 4, 5);
    let v = Vector::new(7, -11, 13);
    assert_eq!(p.add_vector(&v).sub_vector(&v), p);
}

#[test]
fn ray_at_whole_distances() {
    let r = Ray::from(Point::new(2, 3, 4), Vector::new(1, 0, 0));

    assert_eq!(Point::new(2, 3, 4), r.at(0));
    assert_eq!(Point::new(3, 3, 4), r.at(1));
    assert_eq!(Point::new(1, 3, 4), r.at(-1));
    assert_eq!(Point::new(6, 3, 4), r.at(4));
}
