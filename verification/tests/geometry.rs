use picasso::fixed::SCALE;
use picasso::geometry::{identity, mul_matrix, mul_point, rotation, translation, Matrix};
use picasso::point::Point;

// SCALE is the fixed-point representation of 1.0; a quarter turn has
// cosine 0 and sine SCALE.

#[test]
fn identity_entries() {
    let m = identity();
    assert_eq!(m, Matrix { a: SCALE, b: 0, c: 0, d: 0, e: SCALE, f: 0 });
}

#[test]
fn compose_identity_left_and_right() {
    let m = Matrix { a: 12345, b: -678, c: 91011, d: 1213, e: -1415, f: 16 };
    assert_eq!(mul_matrix(&identity(), &m), m);
    assert_eq!(mul_matrix(&m, &identity()), m);
}

#[test]
fn apply_rotation_zero_is_identity() {
    let p = Point::new(123456, -7890);
    let r = rotation(SCALE, 0);
    assert_eq!(mul_point(&r, p), p);
}

#[test]
fn apply_translation_adds_offsets() {
    let p = Point::new(1000, -2000);
    let t = translation(30000, 40000);
    assert_eq!(mul_point(&t, p), Point::new(31000, 38000));
}

#[test]
fn quarter_turn_maps_x_axis_to_y_axis() {
    // cos 90 = 0, sin 90 = 1: (x, y) goes to (-y, x).
    let r = rotation(0, SCALE);
    assert_eq!(mul_point(&r, Point::new(SCALE, 0)), Point::new(0, SCALE));
    assert_eq!(mul_point(&r, Point::new(0, SCALE)), Point::new(-SCALE, 0));
}

#[test]
fn compose_rotation_with_translation() {
    // Rotate a quarter turn, then translate: the combined matrix applied
    // to a point equals applying the parts in sequence.
    let r = rotation(0, SCALE);
    let t = translation(100, 200);
    let combined = mul_matrix(&t, &r);
    let p = Point::new(SCALE, 2 * SCALE);
    let expected = mul_point(&t, mul_point(&r, p));
    assert_eq!(mul_point(&combined, p), expected);
    assert_eq!(expected, Point::new(-2 * SCALE + 100, SCALE + 200));
}
