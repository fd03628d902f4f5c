use mesh_debug_draw::draw::{
    overlay_offset, unwalkable_blend, unwalkable_tint, Paint, Rgba, BITS_BLEND, BITS_HALF,
    BITS_LINE_WIDTH, BITS_ONE, BITS_OPAQUE_INK, BITS_POINT_SIZE, BITS_QUARTER, BITS_TENTH,
    BITS_THREE_QUARTERS, BITS_ZERO,
};
use mesh_debug_draw::scalar::{Axis, Scalar, Vec3};

fn scalar(value: f32) -> Scalar {
    Scalar::from_bits(value.to_bits())
}

fn samples() -> Vec<f32> {
    let mut values = vec![
        0.0,
        -0.0,
        1.0,
        -1.0,
        0.5,
        -0.5,
        0.70710677,
        0.70710678,
        -0.70710677,
        2.5,
        f32::MIN_POSITIVE,
        -f32::MIN_POSITIVE,
        f32::MAX,
        f32::MIN,
        f32::EPSILON,
        f32::INFINITY,
        f32::NEG_INFINITY,
        f32::NAN,
        -f32::NAN,
        f32::from_bits(1),
        f32::from_bits(0x8000_0001),
        f32::from_bits(0x007f_ffff),
        f32::from_bits(0x7f80_0001),
        f32::from_bits(0xffff_ffff),
        f32::from_bits(0x7fc0_0000),
    ];
    let mut state: u32 = 0x1234_5678;
    for _ in 0..200 {
        state = state.wrapping_mul(1664525).wrapping_add(1013904223);
        values.push(f32::from_bits(state));
    }
    values
}

#[test]
fn less_than_is_the_order_of_the_values() {
    for a in samples() {
        for b in samples() {
            assert_eq!(scalar(a).lt(scalar(b)), a < b, "{:?} < {:?}", a, b);
        }
    }
}

#[test]
fn at_least_is_the_order_of_the_values() {
    for a in samples() {
        for b in samples() {
            assert_eq!(scalar(a).ge(scalar(b)), a >= b, "{:?} >= {:?}", a, b);
        }
    }
}

#[test]
fn longer_is_the_order_of_the_magnitudes() {
    for a in samples() {
        for b in samples() {
            assert_eq!(scalar(a).abs_gt(scalar(b)), a.abs() > b.abs(), "|{:?}| > |{:?}|", a, b);
        }
    }
}

#[test]
fn not_a_number_and_sign_are_read_from_the_bits() {
    for a in samples() {
        assert_eq!(scalar(a).is_nan(), a.is_nan(), "{:?}", a);
        assert_eq!(scalar(a).is_sign_negative(), a.is_sign_negative(), "{:?}", a);
        assert_eq!(scalar(a).abs_bits(), a.abs().to_bits(), "{:?}", a);
        assert_eq!(scalar(a).to_bits(), a.to_bits());
    }
}

#[test]
fn both_zeros_are_equal_in_order() {
    let plus = scalar(0.0);
    let minus = scalar(-0.0);
    assert!(!plus.lt(minus));
    assert!(!minus.lt(plus));
    assert!(plus.ge(minus));
    assert!(minus.ge(plus));
    assert!(!plus.abs_gt(minus));
}

#[test]
fn nothing_compares_with_not_a_number() {
    let nan = scalar(f32::NAN);
    let one = scalar(1.0);
    assert!(!nan.lt(one) && !one.lt(nan) && !nan.lt(nan));
    assert!(!nan.ge(one) && !one.ge(nan) && !nan.ge(nan));
    assert!(!nan.abs_gt(one) && !one.abs_gt(nan));
}

#[test]
fn components_are_picked_by_axis() {
    let v = Vec3::from_bits(1.0f32.to_bits(), 2.0f32.to_bits(), 3.0f32.to_bits());
    assert_eq!(f32::from_bits(v.get(Axis::X).to_bits()), 1.0);
    assert_eq!(f32::from_bits(v.get(Axis::Y).to_bits()), 2.0);
    assert_eq!(f32::from_bits(v.get(Axis::Z).to_bits()), 3.0);
    assert_eq!(v.x, scalar(1.0));
    assert_eq!(v.y, scalar(2.0));
    assert_eq!(v.z, scalar(3.0));
}

#[test]
fn named_bit_patterns_are_the_numbers_they_name() {
    assert_eq!(BITS_ZERO, 0.0f32.to_bits());
    assert_eq!(BITS_TENTH, 0.1f32.to_bits());
    assert_eq!(BITS_QUARTER, 0.25f32.to_bits());
    assert_eq!(BITS_BLEND, (64.0f32 / 255.0).to_bits());
    assert_eq!(BITS_HALF, 0.5f32.to_bits());
    assert_eq!(BITS_THREE_QUARTERS, 0.75f32.to_bits());
    assert_eq!(BITS_OPAQUE_INK, 0.86f32.to_bits());
    assert_eq!(BITS_ONE, 1.0f32.to_bits());
    assert_eq!(BITS_LINE_WIDTH, 2.5f32.to_bits());
    assert_eq!(BITS_POINT_SIZE, 3.0f32.to_bits());
}

fn channels(colour: Rgba) -> [f32; 4] {
    [
        f32::from_bits(colour.r.to_bits()),
        f32::from_bits(colour.g.to_bits()),
        f32::from_bits(colour.b.to_bits()),
        f32::from_bits(colour.a.to_bits()),
    ]
}

#[test]
fn fixed_paints_have_their_colours() {
    assert_eq!(channels(Paint::Walkable.rgba().unwrap()), [0.0, 0.75, 1.0, 0.25]);
    assert_eq!(channels(Paint::Null.rgba().unwrap()), [0.0, 0.0, 0.0, 0.25]);
    assert_eq!(channels(Paint::Boundary.rgba().unwrap()), [0.0, 0.25, 0.25, 0.86]);
    assert_eq!(channels(Paint::Point.rgba().unwrap()), [0.0, 0.0, 0.0, 0.86]);
    assert_eq!(Paint::Area(7).rgba(), None);
    assert_eq!(Paint::Slope { normal: 0, steep: true }.rgba(), None);
}

#[test]
fn slope_shading_constants() {
    assert_eq!(channels(unwalkable_tint()), [0.75, 0.5, 0.0, 1.0]);
    assert_eq!(f32::from_bits(unwalkable_blend().to_bits()), 64.0 / 255.0);
    assert_eq!(f32::from_bits(overlay_offset().to_bits()), 0.1);
}
