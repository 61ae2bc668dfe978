use picasso::canvas::{Canvas, Fill, PathSpan};
use picasso::fixed::SCALE;
use picasso::geometry::Matrix;
use picasso::image::Image;
use picasso::point::{Color, Point};

#[test]
fn new_canvas_is_empty() {
    let c = Canvas::new();
    assert_eq!(c.points.len(), 0);
    assert_eq!(c.figures.len(), 0);
    assert_eq!(c.path_in_progress.len(), 0);
    assert_eq!(c.transform, Matrix { a: SCALE, b: 0, c: 0, d: 0, e: SCALE, f: 0 });
}

#[test]
fn move_to_starts_a_path() {
    let c = Canvas::new().move_to(10, 20);
    assert_eq!(c.points, vec![Point::new(10, 20)]);
    assert_eq!(c.path_in_progress, vec![PathSpan { start: 0, len: 1 }]);
}

#[test]
fn line_to_extends_the_open_path() {
    let c = Canvas::new().move_to(10, 20).line_to(30, 40).line_to(50, 60);
    assert_eq!(c.points, vec![Point::new(10, 20), Point::new(30, 40), Point::new(50, 60)]);
    assert_eq!(c.path_in_progress, vec![PathSpan { start: 0, len: 3 }]);
}

#[test]
fn line_to_without_move_to_opens_an_implicit_path() {
    let c = Canvas::new().line_to(7, 8);
    assert_eq!(c.points, vec![Point::new(7, 8)]);
    assert_eq!(c.path_in_progress, vec![PathSpan { start: 0, len: 1 }]);
}

#[test]
fn rectangle_makes_one_path_of_four_corners() {
    let c = Canvas::new().rectangle(10, 20, 30, 40);
    assert_eq!(
        c.points,
        vec![
            Point::new(10, 20),
            Point::new(40, 20),
            Point::new(40, 60),
            Point::new(10, 60),
        ]
    );
    assert_eq!(c.path_in_progress, vec![PathSpan { start: 0, len: 4 }]);
}

#[test]
fn translate_affects_only_later_points() {
    let c = Canvas::new().move_to(0, 0).translate(100, 200).line_to(0, 0);
    assert_eq!(c.points, vec![Point::new(0, 0), Point::new(100, 200)]);
}

#[test]
fn rotate_quarter_turn_transforms_corners() {
    // cos 90 = 0, sin 90 = SCALE: (x, y) goes to (-y, x).
    let c = Canvas::new().rotate(0, SCALE).rectangle(SCALE, 0, SCALE, SCALE);
    assert_eq!(
        c.points,
        vec![
            Point::new(0, SCALE),
            Point::new(0, 2 * SCALE),
            Point::new(-SCALE, 2 * SCALE),
            Point::new(-SCALE, SCALE),
        ]
    );
}

#[test]
fn fill_closes_paths_into_a_figure() {
    let c = Canvas::new().rectangle(0, 0, 10, 10).fill(SCALE, 0, 0, SCALE);
    assert_eq!(c.figures.len(), 1);
    assert_eq!(c.path_in_progress.len(), 0);
    assert_eq!(c.points.len(), 4);
    let fig = &c.figures[0];
    assert_eq!(
        fig.fill,
        Fill::SolidColor(Color { red: SCALE, green: 0, blue: 0, alpha: SCALE })
    );
    assert_eq!(fig.paths, vec![PathSpan { start: 0, len: 4 }]);
}

#[test]
fn fill_with_no_open_path_records_an_empty_figure() {
    let c = Canvas::new().fill(0, 0, 0, SCALE);
    assert_eq!(c.figures.len(), 1);
    assert_eq!(c.figures[0].paths.len(), 0);
}

#[test]
fn two_move_tos_give_one_figure_with_two_sub_paths() {
    let c = Canvas::new()
        .move_to(0, 0)
        .line_to(10, 0)
        .line_to(10, 10)
        .move_to(2, 2)
        .line_to(8, 2)
        .line_to(8, 8)
        .fill(0, SCALE, 0, SCALE);
    assert_eq!(c.figures.len(), 1);
    assert_eq!(
        c.figures[0].paths,
        vec![PathSpan { start: 0, len: 3 }, PathSpan { start: 3, len: 3 }]
    );
}

#[test]
fn fill_linear_gradient_stores_untransformed_endpoints() {
    let c = Canvas::new()
        .translate(5000, 5000)
        .rectangle(0, 0, 10, 10)
        .fill_linear_gradient(0, 0, 10, 10, SCALE, 0, 0, SCALE, 0, 0, SCALE, SCALE);
    assert_eq!(c.figures.len(), 1);
    assert_eq!(
        c.figures[0].fill,
        Fill::LinearGradient(
            Point::new(0, 0),
            Point::new(10, 10),
            Color::new(SCALE, 0, 0, SCALE),
            Color::new(0, 0, SCALE, SCALE),
        )
    );
}

#[test]
fn fill_image_stores_handle_origin_and_size() {
    let img = Image::new(42);
    let c = Canvas::new().rectangle(0, 0, 800, 400).fill_image(&img, 0, 0, 800, 400);
    assert_eq!(c.figures.len(), 1);
    assert_eq!(
        c.figures[0].fill,
        Fill::Image(42, Point::new(0, 0), Point::new(800, 400))
    );
}

#[test]
fn attach_offsets_merged_path_starts_by_prior_point_count() {
    let first = Canvas::new().rectangle(0, 0, 10, 10).fill(SCALE, 0, 0, SCALE);
    let second = Canvas::new().move_to(1, 1).line_to(2, 2).line_to(3, 3).fill(0, SCALE, 0, SCALE);
    let merged = first.attach(&second);
    assert_eq!(merged.points.len(), 4 + 3);
    assert_eq!(merged.figures.len(), 2);
    // The receiver's figure is unchanged.
    assert_eq!(merged.figures[0].paths, vec![PathSpan { start: 0, len: 4 }]);
    // The merged figure's start is its original start plus the receiver's
    // pre-merge point count (4).
    assert_eq!(merged.figures[1].paths, vec![PathSpan { start: 4, len: 3 }]);
    // The merged point data follows the receiver's.
    assert_eq!(merged.points[4], Point::new(1, 1));
    assert_eq!(merged.points[6], Point::new(3, 3));
}

#[test]
fn translate_that_would_overflow_leaves_the_transform_unchanged() {
    // FX_BOUND is the largest well-formed scalar; translating twice by it
    // would push the translation entry out of range, so the second call
    // keeps the transform as it is.
    let c = Canvas::new()
        .translate(picasso::fixed::FX_BOUND, 0)
        .translate(picasso::fixed::FX_BOUND, 0);
    assert_eq!(c.transform.c, picasso::fixed::FX_BOUND);
    assert_eq!(c.transform.f, 0);
}

#[test]
fn attach_keeps_the_receivers_open_paths_and_transform() {
    let first = Canvas::new().translate(7, 9).move_to(0, 0);
    let second = Canvas::new().move_to(5, 5).fill(0, 0, 0, SCALE);
    let t = first.transform;
    let merged = first.attach(&second);
    assert_eq!(merged.path_in_progress, vec![PathSpan { start: 0, len: 1 }]);
    assert_eq!(merged.transform, t);
}
