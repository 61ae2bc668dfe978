use picasso::figure::{Figure, FillType};
use picasso::fixed::SCALE;
use picasso::point::{Color, Point};

#[test]
fn new_figure_is_empty_and_red() {
    let f = Figure::new();
    assert_eq!(f.points.len(), 0);
    assert_eq!(f.paths.len(), 0);
    assert_eq!(f.fill, FillType::Solid(Color::new(SCALE, 0, 0, SCALE)));
}

#[test]
fn move_to_records_a_path_start() {
    let f = Figure::new().move_to(1, 2).line_to(3, 4).move_to(5, 6);
    assert_eq!(f.points, vec![Point::new(1, 2), Point::new(3, 4), Point::new(5, 6)]);
    assert_eq!(f.paths, vec![0, 2]);
}

#[test]
fn rectangle_pushes_four_corners_and_one_start() {
    let f = Figure::new().rectangle(-SCALE, -SCALE, 2 * SCALE, 2 * SCALE);
    assert_eq!(
        f.points,
        vec![
            Point::new(-SCALE, -SCALE),
            Point::new(SCALE, -SCALE),
            Point::new(SCALE, SCALE),
            Point::new(-SCALE, SCALE),
        ]
    );
    assert_eq!(f.paths, vec![0]);
}

#[test]
fn fill_solid_replaces_the_fill() {
    let f = Figure::new().fill_solid(1, 2, 3, 4);
    assert_eq!(f.fill, FillType::Solid(Color::new(1, 2, 3, 4)));
}

#[test]
fn fill_linear_gradient_replaces_the_fill() {
    let f = Figure::new().fill_linear_gradient(
        -SCALE, 0, SCALE, 0, 49807, 32113, 45219, SCALE, 5243, 0, 3932, SCALE,
    );
    assert_eq!(
        f.fill,
        FillType::LinearGradient(
            Point::new(-SCALE, 0),
            Point::new(SCALE, 0),
            Color::new(49807, 32113, 45219, SCALE),
            Color::new(5243, 0, 3932, SCALE),
        )
    );
}

#[test]
fn bezier_to_appends_eleven_samples() {
    let f = Figure::new().move_to(0, 0).bezier_to(SCALE, 0, 2 * SCALE, 0, 3 * SCALE, 0);
    assert_eq!(f.points.len(), 1 + 11);
    assert_eq!(f.paths, vec![0]);
    // The first sample is the start point, the last is the end point.
    assert_eq!(f.points[1], Point::new(0, 0));
    assert_eq!(f.points[11 + 1 - 1], Point::new(3 * SCALE, 0));
}

#[test]
fn bezier_to_on_evenly_spaced_collinear_controls_is_linear() {
    // Control points 0, SCALE, 2*SCALE, 3*SCALE on the x axis: every
    // interpolation difference is exactly SCALE, so each sample k lands at
    // 3 * floor(k * SCALE / 10) with no further rounding.
    let f = Figure::new().move_to(0, 0).bezier_to(SCALE, 0, 2 * SCALE, 0, 3 * SCALE, 0);
    let expected_x = [
        0i64, 19659, 39321, 58980, 78642, 98304, 117963, 137625, 157284, 176946, 196608,
    ];
    for (k, &x) in expected_x.iter().enumerate() {
        assert_eq!(f.points[1 + k], Point::new(x, 0), "sample {}", k);
    }
}

#[test]
fn bezier_to_with_coincident_controls_stays_put() {
    let f = Figure::new().move_to(7, 9).bezier_to(7, 9, 7, 9, 7, 9);
    for k in 0..11 {
        assert_eq!(f.points[1 + k], Point::new(7, 9));
    }
}
