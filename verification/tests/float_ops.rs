use tracer_core::Float;

fn fl(v: f64) -> Float {
    Float::new(v.to_bits())
}

#[test]
fn can_be_compared_equal() {
    let a = fl(1.0);
    let b = fl(1.0);
    let c = fl(1.1);

    assert_eq!(a == b, true);
    assert_eq!(a != b, false);
    assert_eq!(a == c, false);
    assert_eq!(a != c, true);
}

#[test]
fn can_be_compared_less() {
    let a = fl(1.0);
    let b = fl(1.5);

    assert_eq!(a < b, true);
    assert_eq!(b < a, false);
}

#[test]
fn can_be_compared_greater() {
    let a = fl(1.0);
    let b = fl(1.5);

    assert_eq!(b > a, true);
    assert_eq!(a > b, false);
}

#[test]
fn can_be_compared_greater_or_equal() {
    let a = fl(1.0);
    let b = fl(1.0);

    assert_eq!(b >= a, true);
    assert_eq!(a >= b, true);
}

#[test]
fn can_be_compared_less_or_equal() {
    let a = fl(1.0);
    let b = fl(1.0);

    assert_eq!(b <= a, true);
    assert_eq!(a <= b, true);
}

#[test]
fn can_be_added() {
    let a = fl(1.0);
    let b = fl(1.5);

    assert_eq!(a.add(b), fl(2.5));
}

#[test]
fn can_be_substracted() {
    let a = fl(1.0);
    let b = fl(1.5);

    assert_eq!(a.sub(b), fl(-0.5));
}

#[test]
fn can_be_multiplied() {
    let a = fl(2.0);
    let b = fl(1.5);

    assert_eq!(a.mul(b), fl(3.0));
}

#[test]
fn can_be_divided() {
    let a = fl(1.0);
    let b = fl(2.0);

    assert_eq!(a.div(b), fl(0.5));
}

#[test]
fn equal_magnitude_opposite_sign_scalars_are_equal() {
    assert_eq!(fl(2.5) == fl(-2.5), true);
    assert_eq!(fl(-1.0) == fl(1.0), true);
    assert_eq!(fl(0.0) == fl(-0.0), true);
    assert_eq!(fl(2.5) == fl(-2.6), false);
}

#[test]
fn arithmetic_matches_the_hardware_bit_for_bit() {
    let pairs = [(1.0f64, 1.5f64), (0.1, 0.2), (1e300, 7.3), (-5.5, 2.25), (3.7, -0.0)];
    for (x, y) in pairs {
        assert_eq!(fl(x).add(fl(y)).value(), (x + y).to_bits());
        assert_eq!(fl(x).sub(fl(y)).value(), (x - y).to_bits());
        assert_eq!(fl(x).mul(fl(y)).value(), (x * y).to_bits());
        assert_eq!(fl(x).div(fl(y)).value(), (x / y).to_bits());
        assert_eq!(fl(x).neg().value(), (-x).to_bits());
    }
}

#[test]
fn square_root_matches_the_hardware_bit_for_bit() {
    let values = [
        0.0f64,
        1.0,
        2.0,
        4.0,
        14.0,
        0.1,
        1e300,
        1e-300,
        5e-324,
        2.2250738585072014e-308,
        1.0 + f64::EPSILON,
        255.0,
    ];
    for v in values {
        assert_eq!(fl(v).sqrt().value(), v.sqrt().to_bits());
    }
    assert_eq!(fl(-0.0).sqrt().value(), (-0.0f64).to_bits());
}
