use tracer_core::Float;
use tracer_core::Point;
use tracer_core::Vector;

fn fl(v: f64) -> Float {
    Float::new(v.to_bits())
}

#[test]
fn can_substract_two_points_to_a_vector() {
    let a = Point::new(fl(3.0), fl(2.0), fl(1.0));
    let b = Point::new(fl(5.0), fl(6.0), fl(7.0));

    assert_eq!(a.sub(b), Vector::new(fl(-2.0), fl(-4.0), fl(-6.0)));
}

#[test]
fn can_substract_vector_from_a_point() {
    let a = Point::new(fl(3.0), fl(2.0), fl(1.0));
    let b = Vector::new(fl(5.0), fl(6.0), fl(7.0));

    assert_eq!(a.sub_vector(b), Point::new(fl(-2.0), fl(-4.0), fl(-6.0)));
}
