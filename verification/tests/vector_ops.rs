use tracer_core::vector::cross_anticommutes;
use tracer_core::Float;
use tracer_core::Vector;

fn fl(v: f64) -> Float {
    Float::new(v.to_bits())
}

#[test]
fn can_add_vectors() {
    let a = Vector::new(fl(1.0), fl(2.0), fl(3.0));
    let b = Vector::new(fl(2.0), fl(3.0), fl(4.0));
    assert_eq!(a.add(b), Vector::new(fl(3.0), fl(5.0), fl(7.0)));
}

#[test]
fn can_substract_vectors() {
    let a = Vector::new(fl(1.0), fl(2.0), fl(3.0));
    let b = Vector::new(fl(2.0), fl(3.0), fl(4.0));
    assert_eq!(a.sub(b), Vector::new(fl(-1.0), fl(-1.0), fl(-1.0)));
}

#[test]
fn can_substract_a_vector_from_a_zero_vector() {
    let a = Vector::new(fl(0.0), fl(0.0), fl(0.0));
    let b = Vector::new(fl(1.0), fl(-2.0), fl(3.0));

    assert_eq!(a.sub(b), Vector::new(fl(-1.0), fl(2.0), fl(-3.0)));
}

#[test]
fn can_multiply_a_vector_with_a_scalar() {
    let a = Vector::new(fl(1.0), fl(-2.0), fl(3.0));

    assert_eq!(a.mul(fl(3.5)), Vector::new(fl(3.5), fl(-7.0), fl(10.5)));
}

#[test]
fn can_compute_the_magnitude() {
    let a = Vector::new(fl(1.0), fl(0.0), fl(0.0));
    assert_eq!(a.magnitude(), fl(1.0));

    let b = Vector::new(fl(0.0), fl(1.0), fl(0.0));
    assert_eq!(b.magnitude(), fl(1.0));

    let c = Vector::new(fl(0.0), fl(0.0), fl(1.0));
    assert_eq!(c.magnitude(), fl(1.0));

    let d = Vector::new(fl(1.0), fl(2.0), fl(3.0));
    assert_eq!(d.magnitude(), fl(14.0).sqrt());

    let e = Vector::new(fl(-1.0), fl(-2.0), fl(-3.0));
    assert_eq!(e.magnitude(), fl(14.0).sqrt());
}

#[test]
fn can_normalize_vectors() {
    let a = Vector::new(fl(4.0), fl(0.0), fl(0.0));
    assert_eq!(a.normalize(), Vector::new(fl(1.0), fl(0.0), fl(0.0)));

    let b = Vector::new(fl(1.0), fl(2.0), fl(3.0));
    assert_eq!(
        b.normalize(),
        Vector::new(
            fl(1.0).div(fl(14.0).sqrt()),
            fl(2.0).div(fl(14.0).sqrt()),
            fl(3.0).div(fl(14.0).sqrt())
        )
    );

    assert_eq!(b.normalize().magnitude(), fl(1.0));
}

#[test]
fn can_calculate_dot_product() {
    let a = Vector::new(fl(1.0), fl(2.0), fl(3.0));
    let b = Vector::new(fl(2.0), fl(3.0), fl(4.0));
    assert_eq!(a.dot(b), fl(20.0));
}

#[test]
fn can_calculate_cross_product() {
    let a = Vector::new(fl(1.0), fl(2.0), fl(3.0));
    let b = Vector::new(fl(2.0), fl(3.0), fl(4.0));
    assert_eq!(a.cross(&b), Vector::new(fl(-1.0), fl(2.0), fl(-1.0)));

    let a = Vector::new(fl(1.0), fl(2.0), fl(3.0));
    let b = Vector::new(fl(2.0), fl(3.0), fl(4.0));
    assert_eq!(b.cross(&a), Vector::new(fl(1.0), fl(-2.0), fl(1.0)));
}

#[test]
fn cross_product_anticommutes() {
    let a = Vector::new(fl(1.0), fl(2.0), fl(3.0));
    let b = Vector::new(fl(2.0), fl(3.0), fl(4.0));
    assert!(cross_anticommutes(&a, &b));

    let c = a.cross(&b);
    let d = b.cross(&a);
    let negated = Vector::new(d.x().neg(), d.y().neg(), d.z().neg());
    assert_eq!(c, negated);
    assert_eq!(c, Vector::new(fl(-1.0), fl(2.0), fl(-1.0)));

    let e = Vector::new(fl(-7.25), fl(0.5), fl(19.0));
    let f = Vector::new(fl(3.0), fl(-2.5), fl(11.5));
    assert!(cross_anticommutes(&e, &f));
}
