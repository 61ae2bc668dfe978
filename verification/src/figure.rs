//! A stand-alone figure builder: one fill plus a point buffer with path
//! start indices. Unlike `Canvas`, this builder applies no transform and
//! keeps raw coordinates; a path runs from its start index to the next
//! start index (or the end of the buffer).

use vstd::prelude::*;
use crate::fixed::{fx_mul, fx_mul_spec, fx_wf, lemma_lerp_bounds, SCALE};
use vstd::arithmetic::div_mod::lemma_div_is_ordered;
use crate::point::{point_wf, Color, Point};

verus! {

/// How a figure is shaded: one color, or a linear gradient between two
/// points and colors.
#[derive(Clone, Copy, Debug, PartialEq, Eq, Structural)]
pub enum FillType {
    Solid(Color),
    LinearGradient(Point, Point, Color, Color),
}

/// A figure under construction: its points, the indices at which its
/// paths start, and its fill.
#[derive(Debug)]
pub struct Figure {
    pub points: Vec<Point>,
    pub paths: Vec<usize>,
    pub fill: FillType,
}

/// Linear interpolation of one coordinate: `a + t * (b - a)` with `t` a
/// fixed-point factor.
pub open spec fn lerp_coord(t: int, a: int, b: int) -> int {
    a + fx_mul_spec(t, b - a)
}

/// Linear interpolation between two points.
pub open spec fn lerp(t: int, a: Point, b: Point) -> Point {
    Point {
        x: lerp_coord(t, a.x as int, b.x as int) as i64,
        y: lerp_coord(t, a.y as int, b.y as int) as i64,
    }
}

/// The point of the cubic curve through `p0` with handles `p1`, `p2` and
/// endpoint `p3` at parameter `t`, by repeated interpolation.
pub open spec fn bezier_point(t: int, p0: Point, p1: Point, p2: Point, p3: Point) -> Point {
    let ab = lerp(t, p0, p1);
    let bc = lerp(t, p1, p2);
    let cd = lerp(t, p2, p3);
    let abbc = lerp(t, ab, bc);
    let bccd = lerp(t, bc, cd);
    lerp(t, abbc, bccd)
}

/// The parameter of the k-th of eleven samples: k / 10 as a fixed-point
/// factor, rounded toward negative infinity.
pub open spec fn bezier_t(k: int) -> int {
    (k * SCALE) / 10
}

/// The first `n` of the eleven curve samples, in order.
pub open spec fn bezier_points(p0: Point, p1: Point, p2: Point, p3: Point, n: int) -> Seq<Point>
    decreases n,
{
    if n <= 0 {
        Seq::empty()
    } else {
        bezier_points(p0, p1, p2, p3, n - 1).push(bezier_point(bezier_t(n - 1), p0, p1, p2, p3))
    }
}

impl Figure {
    /// The builder invariant: every path start lies inside the point
    /// buffer and every stored point is well formed.
    pub open spec fn wf(self) -> bool {
        &&& forall|i: int| 0 <= i < self.paths@.len() ==> #[trigger] self.paths@[i] < self.points@.len()
        &&& forall|i: int| 0 <= i < self.points@.len() ==> point_wf(#[trigger] self.points@[i])
    }

    /// A fresh figure with no points and an opaque red fill.
    pub fn new() -> (f: Figure)
        ensures
            f.points@ == Seq::<Point>::empty(),
            f.paths@ == Seq::<usize>::empty(),
            f.fill == FillType::Solid(Color { red: SCALE, green: 0, blue: 0, alpha: SCALE }),
            f.wf(),
    {
        Figure {
            points: Vec::new(),
            paths: Vec::new(),
            fill: FillType::Solid(Color { red: SCALE, green: 0, blue: 0, alpha: SCALE }),
        }
    }

    /// Draw a line to the provided coordinates: the point is appended to
    /// the current path.
    pub fn line_to(self, x: i64, y: i64) -> (f: Figure)
        requires
            self.wf(),
            fx_wf(x as int),
            fx_wf(y as int),
        ensures
            f.points@ == self.points@.push(Point { x, y }),
            f.paths@ == self.paths@,
            f.fill == self.fill,
            f.wf(),
    {
        let mut f = self;
        f.points.push(Point { x, y });
        f
    }

    /// Move the virtual pen to new coordinates without connecting a line:
    /// the point is appended and a new path starts at its index.
    pub fn move_to(self, x: i64, y: i64) -> (f: Figure)
        requires
            self.wf(),
            fx_wf(x as int),
            fx_wf(y as int),
        ensures
            f.points@ == self.points@.push(Point { x, y }),
            f.paths@ == self.paths@.push(self.points@.len() as usize),
            f.fill == self.fill,
            f.wf(),
    {
        let mut f = self;
        let start = f.points.len();
        f.points.push(Point { x, y });
        f.paths.push(start);
        f
    }

    /// Give the figure a solid fill.
    pub fn fill_solid(self, red: i64, green: i64, blue: i64, alpha: i64) -> (f: Figure)
        requires
            self.wf(),
        ensures
            f.points@ == self.points@,
            f.paths@ == self.paths@,
            f.fill == FillType::Solid(Color { red, green, blue, alpha }),
            f.wf(),
    {
        let mut f = self;
        f.fill = FillType::Solid(Color { red, green, blue, alpha });
        f
    }

    /// Give the figure a linear gradient fill from (x1, y1) with the
    /// `from` color to (x2, y2) with the `to` color.
    pub fn fill_linear_gradient(
        self,
        x1: i64,
        y1: i64,
        x2: i64,
        y2: i64,
        from_red: i64,
        from_green: i64,
        from_blue: i64,
        from_alpha: i64,
        to_red: i64,
        to_green: i64,
        to_blue: i64,
        to_alpha: i64,
    ) -> (f: Figure)
        requires
            self.wf(),
        ensures
            f.points@ == self.points@,
            f.paths@ == self.paths@,
            f.fill == FillType::LinearGradient(
                Point { x: x1, y: y1 },
                Point { x: x2, y: y2 },
                Color { red: from_red, green: from_green, blue: from_blue, alpha: from_alpha },
                Color { red: to_red, green: to_green, blue: to_blue, alpha: to_alpha },
            ),
            f.wf(),
    {
        let mut f = self;
        f.fill = FillType::LinearGradient(
            Point { x: x1, y: y1 },
            Point { x: x2, y: y2 },
            Color { red: from_red, green: from_green, blue: from_blue, alpha: from_alpha },
            Color { red: to_red, green: to_green, blue: to_blue, alpha: to_alpha },
        );
        f
    }

    /// Draw an axis-aligned rectangle: one new path whose four corners are
    /// (x, y), (x+w, y), (x+w, y+h), (x, y+h), in that order.
    pub fn rectangle(self, x: i64, y: i64, width: i64, height: i64) -> (f: Figure)
        requires
            self.wf(),
            fx_wf(x as int),
            fx_wf(y as int),
            fx_wf(x + width),
            fx_wf(y + height),
        ensures
            f.points@ == self.points@ + seq![
                Point { x, y },
                Point { x: (x + width) as i64, y },
                Point { x: (x + width) as i64, y: (y + height) as i64 },
                Point { x, y: (y + height) as i64 },
            ],
            f.paths@ == self.paths@.push(self.points@.len() as usize),
            f.fill == self.fill,
            f.wf(),
    {
        let ghost orig = self;
        let f = self
            .move_to(x, y)
            .line_to(x + width, y)
            .line_to(x + width, y + height)
            .line_to(x, y + height);
        proof {
            assert(f.points@ =~= orig.points@ + seq![
                Point { x, y },
                Point { x: (x + width) as i64, y },
                Point { x: (x + width) as i64, y: (y + height) as i64 },
                Point { x, y: (y + height) as i64 },
            ]);
        }
        f
    }

    /// Flatten a cubic curve from the last point through the two handles
    /// to the end point, appending eleven evenly spaced samples of the
    /// curve to the current path.
    pub fn bezier_to(
        self,
        in_handle_x: i64,
        in_handle_y: i64,
        out_handle_x: i64,
        out_handle_y: i64,
        point_x: i64,
        point_y: i64,
    ) -> (f: Figure)
        requires
            self.wf(),
            self.points@.len() > 0,
            fx_wf(in_handle_x as int),
            fx_wf(in_handle_y as int),
            fx_wf(out_handle_x as int),
            fx_wf(out_handle_y as int),
            fx_wf(point_x as int),
            fx_wf(point_y as int),
        ensures
            f.points@ == self.points@ + bezier_points(
                self.points@.last(),
                Point { x: in_handle_x, y: in_handle_y },
                Point { x: out_handle_x, y: out_handle_y },
                Point { x: point_x, y: point_y },
                11,
            ),
            f.paths@ == self.paths@,
            f.fill == self.fill,
            f.wf(),
    {
        let mut f = self;
        let in_point = f.points[f.points.len() - 1];
        let in_handle = Point::new(in_handle_x, in_handle_y);
        let out_handle = Point::new(out_handle_x, out_handle_y);
        let out_point = Point::new(point_x, point_y);
        proof {
            assert(point_wf(self.points@[self.points@.len() - 1]));
        }
        let mut iteration: u64 = 0;
        while iteration < 11
            invariant
                0 <= iteration <= 11,
                f.points@ == self.points@ + bezier_points(
                    in_point,
                    in_handle,
                    out_handle,
                    out_point,
                    iteration as int,
                ),
                f.paths@ == self.paths@,
                f.fill == self.fill,
                self.wf(),
                point_wf(in_point),
                point_wf(in_handle),
                point_wf(out_handle),
                point_wf(out_point),
                in_point == self.points@.last(),
                forall|i: int| 0 <= i < f.points@.len() ==> point_wf(#[trigger] f.points@[i]),
            decreases 11 - iteration,
        {
            let t_u: u64 = (iteration * 65536) / 10;
            proof {
                assert(iteration * 65536 <= 10 * 65536) by (nonlinear_arith)
                    requires
                        iteration <= 10,
                ;
                lemma_div_is_ordered((iteration * 65536) as int, 655360int, 10);
            }
            let amount: i64 = t_u as i64;
            proof {
                assert(amount == bezier_t(iteration as int));
            }
            let in_value = lerp_step(amount, in_point, in_handle);
            let mid_value = lerp_step(amount, in_handle, out_handle);
            let out_value = lerp_step(amount, out_handle, out_point);
            let abbc = lerp_step(amount, in_value, mid_value);
            let bccd = lerp_step(amount, mid_value, out_value);
            f.points.push(lerp_step(amount, abbc, bccd));
            proof {
                assert(f.points@ =~= self.points@ + bezier_points(
                    in_point,
                    in_handle,
                    out_handle,
                    out_point,
                    iteration + 1,
                ));
            }
            iteration = iteration + 1;
        }
        f
    }
}

/// One linear interpolation step between two well-formed points; the
/// result is exactly `lerp` and stays well formed because it lies between
/// the endpoints coordinate by coordinate.
fn lerp_step(t: i64, a: Point, b: Point) -> (r: Point)
    requires
        0 <= t <= SCALE,
        point_wf(a),
        point_wf(b),
    ensures
        r == lerp(t as int, a, b),
        point_wf(r),
{
    proof {
        lemma_lerp_bounds(t as int, a.x as int, b.x as int);
        lemma_lerp_bounds(t as int, a.y as int, b.y as int);
    }
    Point { x: a.x + fx_mul(t, b.x - a.x), y: a.y + fx_mul(t, b.y - a.y) }
}

} // verus!
