use tracer_core::Color;
use tracer_core::Float;

fn fl(v: f64) -> Float {
    Float::new(v.to_bits())
}

#[test]
fn can_add_colors() {
    let a = Color::new(fl(0.9), fl(0.6), fl(0.75));
    let b = Color::new(fl(0.7), fl(0.1), fl(0.25));

    assert_eq!(a.add(b), Color::new(fl(1.6), fl(0.7), fl(1.0)));
}

#[test]
fn can_subtract_colors() {
    let a = Color::new(fl(0.9), fl(0.6), fl(0.75));
    let b = Color::new(fl(0.7), fl(0.1), fl(0.25));

    assert_eq!(a.sub(b), Color::new(fl(0.2), fl(0.5), fl(0.5)));
}

#[test]
fn can_be_multiplied_by_a_scalar() {
    let a = Color::new(fl(0.2), fl(0.3), fl(0.4));

    assert_eq!(a.scale(fl(2.0)), Color::new(fl(0.4), fl(0.6), fl(0.8)));
}

#[test]
fn can_be_multiplied_with_another_color() {
    let a = Color::new(fl(1.0), fl(0.2), fl(0.4));
    let b = Color::new(fl(0.9), fl(1.0), fl(0.1));

    assert_eq!(a.mul(b), Color::new(fl(0.9), fl(0.2), fl(0.04)));
}

#[test]
fn output_channels_are_clamped_scaled_and_truncated() {
    assert_eq!(Color::new(fl(1.5), fl(0.0), fl(0.0)).to_255(), "255 0 0");
    assert_eq!(Color::new(fl(0.0), fl(0.5), fl(0.0)).to_255(), "0 127 0");
    assert_eq!(Color::new(fl(-0.5), fl(0.0), fl(1.0)).to_255(), "0 0 255");
    assert_eq!(Color::new(fl(0.999), fl(0.001), fl(0.25)).to_255(), "254 0 63");
}
