use tracer_core::Float;
use tracer_core::Tuple;

fn fl(v: f64) -> Float {
    Float::new(v.to_bits())
}

#[test]
fn cannot_initialize_with_invalid_w() {
    let a = Tuple::new(fl(1.0), fl(1.0), fl(1.0), fl(0.5));
    assert_eq!(a.is_err(), true);
}

#[test]
fn cannot_initialize_with_valid_w() {
    let a = Tuple::new(fl(1.0), fl(1.0), fl(1.0), fl(1.0));
    assert_eq!(a.is_ok(), true);

    let b = Tuple::new(fl(1.0), fl(1.0), fl(1.0), fl(0.0));
    assert_eq!(b.is_ok(), true);
}

#[test]
fn can_add_tuples() {
    let a = Tuple::new(fl(3.0), fl(-2.0), fl(5.0), fl(1.0)).unwrap();
    let b = Tuple::new(fl(-2.0), fl(3.0), fl(1.0), fl(0.0)).unwrap();

    assert_eq!(
        a.add(b).unwrap() == Tuple::new(fl(1.0), fl(1.0), fl(6.0), fl(1.0)).unwrap(),
        true
    );
}

#[test]
fn can_substract_two_points() {
    let a = Tuple::new(fl(3.0), fl(2.0), fl(1.0), fl(1.0)).unwrap();
    let b = Tuple::new(fl(5.0), fl(6.0), fl(7.0), fl(1.0)).unwrap();

    assert_eq!(
        a.sub(b).unwrap(),
        Tuple::new(fl(-2.0), fl(-4.0), fl(-6.0), fl(0.0)).unwrap()
    );
}

#[test]
fn can_substract_a_vector_from_a_point() {
    let point = Tuple::new(fl(3.0), fl(2.0), fl(1.0), fl(1.0)).unwrap();
    let vector = Tuple::new(fl(5.0), fl(6.0), fl(7.0), fl(0.0)).unwrap();

    assert_eq!(
        vector.sub(point).unwrap(),
        Tuple::new(fl(-2.0), fl(-4.0), fl(-6.0), fl(1.0)).unwrap()
    );
}

#[test]
fn can_substract_two_vectors() {
    let a = Tuple::new(fl(3.0), fl(2.0), fl(1.0), fl(0.0)).unwrap();
    let b = Tuple::new(fl(5.0), fl(6.0), fl(7.0), fl(0.0)).unwrap();

    assert_eq!(
        a.sub(b).unwrap(),
        Tuple::new(fl(-2.0), fl(-4.0), fl(-6.0), fl(0.0)).unwrap()
    );
}

#[test]
fn adding_two_point_tags_is_rejected() {
    let a = Tuple::new(fl(3.0), fl(-2.0), fl(5.0), fl(1.0)).unwrap();
    let b = Tuple::new(fl(1.0), fl(1.0), fl(1.0), fl(1.0)).unwrap();
    let r = a.add(b);
    assert!(r.is_err());
    assert_eq!(r.unwrap_err(), "w must be either 1.0 or 0.0".to_string());
}

#[test]
fn construction_accepts_the_epsilon_band_and_rejects_the_rest() {
    assert!(Tuple::new(fl(0.0), fl(0.0), fl(0.0), fl(f64::EPSILON)).is_ok());
    assert!(Tuple::new(fl(0.0), fl(0.0), fl(0.0), fl(1.0 + f64::EPSILON)).is_ok());
    assert!(Tuple::new(fl(0.0), fl(0.0), fl(0.0), fl(-1.0)).is_ok());
    assert!(Tuple::new(fl(0.0), fl(0.0), fl(0.0), fl(0.25)).is_err());
    assert!(Tuple::new(fl(0.0), fl(0.0), fl(0.0), fl(0.5)).is_err());
    assert!(Tuple::new(fl(0.0), fl(0.0), fl(0.0), fl(0.999)).is_err());
    assert!(Tuple::new(fl(0.0), fl(0.0), fl(0.0), fl(2.0)).is_err());
    let e = Tuple::new(fl(0.0), fl(0.0), fl(0.0), fl(0.5)).unwrap_err();
    assert_eq!(e, "w must be either 1.0 or 0.0".to_string());
}
