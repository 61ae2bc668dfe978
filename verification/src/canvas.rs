//! The scene builder.
//!
//! A `Canvas` accumulates transformed points, path boundaries and filled
//! figures as plain data; it never touches the GPU. Every mutator consumes
//! the builder and returns the new one, so each call's effect depends only
//! on the prior calls.

use vstd::prelude::*;
use crate::fixed::{fx_wf, FX_BOUND, SCALE};
use crate::geometry::{
    apply_point, mat_identity, mat_mul_a, mat_mul_b, mat_mul_c, mat_mul_d,
    mat_mul_e, mat_mul_f, mat_wf, identity, mul_matrix, mul_point, rotation, rot_mat, translation,
    trans_mat, Matrix,
};
use crate::image::Image;
use crate::point::{Color, Point};

verus! {

/// A contiguous run of `len` points in a canvas's point buffer, beginning
/// at index `start`. A path of three or more points is implicitly closed
/// when filled.
#[derive(Clone, Copy, Debug, PartialEq, Eq, Structural)]
pub struct PathSpan {
    pub start: usize,
    pub len: usize,
}

/// How the interior of a figure is shaded.
#[derive(Clone, Copy, Debug, PartialEq, Eq, Structural)]
pub enum Fill {
    /// One color everywhere.
    SolidColor(Color),
    /// A linear gradient from a begin point with a begin color to an end
    /// point with an end color; fragments are colored by the projection of
    /// their position onto the begin-to-end axis, unclamped.
    LinearGradient(Point, Point, Color, Color),
    /// A texture sample: the GPU texture handle, the origin point, and the
    /// width and height that map the texture onto device space.
    Image(u32, Point, Point),
}

/// One fill applied to one or more paths of the owning canvas.
#[derive(Clone, Debug)]
pub struct Figure {
    pub fill: Fill,
    pub paths: Vec<PathSpan>,
}

/// A span is valid for a point buffer of length `n` when it lies inside
/// the buffer and is not empty.
pub open spec fn span_wf(s: PathSpan, n: nat) -> bool {
    s.start + s.len <= n && s.len >= 1
}

/// All of a figure's spans are valid for a point buffer of length `n`.
pub open spec fn figure_wf(f: Figure, n: nat) -> bool {
    forall|i: int| 0 <= i < f.paths@.len() ==> span_wf(#[trigger] f.paths@[i], n)
}

/// Used to create shapes by calling `line_to` and `move_to`; pass the
/// result to a renderer to obtain its drawing commands.
#[derive(Debug)]
pub struct Canvas {
    pub points: Vec<Point>,
    pub figures: Vec<Figure>,
    pub path_in_progress: Vec<PathSpan>,
    pub transform: Matrix,
}

impl Canvas {
    /// The canvas invariant: the transform is well formed and every path
    /// span, filled or in progress, lies inside the point buffer.
    pub open spec fn wf(self) -> bool {
        &&& mat_wf(self.transform)
        &&& forall|i: int|
            0 <= i < self.figures@.len() ==> figure_wf(#[trigger] self.figures@[i], self.points@.len())
        &&& forall|i: int|
            0 <= i < self.path_in_progress@.len() ==> span_wf(
                #[trigger] self.path_in_progress@[i],
                self.points@.len(),
            )
    }

    /// A fresh, empty canvas with the identity transform.
    pub fn new() -> (c: Canvas)
        ensures
            c.points@ == Seq::<Point>::empty(),
            c.figures@ == Seq::<Figure>::empty(),
            c.path_in_progress@ == Seq::<PathSpan>::empty(),
            c.transform == mat_identity(),
            c.wf(),
    {
        Canvas {
            points: Vec::new(),
            figures: Vec::new(),
            path_in_progress: Vec::new(),
            transform: identity(),
        }
    }

    /// Right-multiply the current transform by a rotation with the given
    /// cosine and sine; affects only points added afterwards. If the
    /// composed entries would leave the well-formed range, the transform
    /// is left unchanged.
    pub fn rotate(self, cos_a: i64, sin_a: i64) -> (r: Canvas)
        requires
            self.wf(),
            -SCALE <= cos_a <= SCALE,
            -SCALE <= sin_a <= SCALE,
        ensures
            r.points@ == self.points@,
            r.figures@ == self.figures@,
            r.path_in_progress@ == self.path_in_progress@,
            r.transform == compose_or_keep(self.transform, rot_mat(cos_a, sin_a)),
            r.wf(),
    {
        let rm = rotation(cos_a, sin_a);
        self.compose(&rm)
    }

    /// Right-multiply the current transform by a translation; affects only
    /// points added afterwards. If the composed entries would leave the
    /// well-formed range, the transform is left unchanged.
    pub fn translate(self, x: i64, y: i64) -> (r: Canvas)
        requires
            self.wf(),
            fx_wf(x as int),
            fx_wf(y as int),
        ensures
            r.points@ == self.points@,
            r.figures@ == self.figures@,
            r.path_in_progress@ == self.path_in_progress@,
            r.transform == compose_or_keep(self.transform, trans_mat(x, y)),
            r.wf(),
    {
        let tm = translation(x, y);
        self.compose(&tm)
    }

    /// Compose the current transform with `m` on the right, keeping the
    /// old transform when the product's entries would not be well formed.
    fn compose(self, m: &Matrix) -> (r: Canvas)
        requires
            self.wf(),
            mat_wf(*m),
        ensures
            r.points@ == self.points@,
            r.figures@ == self.figures@,
            r.path_in_progress@ == self.path_in_progress@,
            r.transform == compose_or_keep(self.transform, *m),
            r.wf(),
    {
        let p = mul_matrix(&self.transform, m);
        let ok = in_bound(p.a) && in_bound(p.b) && in_bound(p.c) && in_bound(p.d) && in_bound(p.e)
            && in_bound(p.f);
        if ok {
            Canvas { transform: p, ..self }
        } else {
            self
        }
    }

    /// Move the virtual pen to new coordinates without connecting a line:
    /// the transformed point is appended and a fresh one-point path is
    /// opened at its index.
    pub fn move_to(self, x: i64, y: i64) -> (r: Canvas)
        requires
            self.wf(),
            fx_wf(x as int),
            fx_wf(y as int),
        ensures
            r.points@ == self.points@.push(apply_point(self.transform, Point { x, y })),
            r.figures@ == self.figures@,
            r.path_in_progress@ == self.path_in_progress@.push(
                PathSpan { start: self.points@.len() as usize, len: 1 },
            ),
            r.transform == self.transform,
            r.wf(),
    {
        let mut c = self;
        let p = mul_point(&c.transform, Point { x, y });
        let start = c.points.len();
        c.points.push(p);
        c.path_in_progress.push(PathSpan { start, len: 1 });
        c
    }

    /// Draw a line to the provided coordinates: the transformed point is
    /// appended and the most recent open path grows by one. If no path is
    /// open, an implicit one-point path is opened at the new point's index.
    pub fn line_to(self, x: i64, y: i64) -> (r: Canvas)
        requires
            self.wf(),
            fx_wf(x as int),
            fx_wf(y as int),
            self.points@.len() < usize::MAX,
        ensures
            r.points@ == self.points@.push(apply_point(self.transform, Point { x, y })),
            r.figures@ == self.figures@,
            r.path_in_progress@ == line_to_spans(self.path_in_progress@, self.points@.len() as usize),
            r.transform == self.transform,
            r.wf(),
    {
        let mut c = self;
        let p = mul_point(&c.transform, Point { x, y });
        let start = c.points.len();
        c.points.push(p);
        let ghost spans = c.path_in_progress@;
        match c.path_in_progress.pop() {
            None => {
                c.path_in_progress.push(PathSpan { start, len: 1 });
            },
            Some(last) => {
                c.path_in_progress.push(PathSpan { start: last.start, len: last.len + 1 });
                proof {
                    assert(c.path_in_progress@ =~= line_to_spans(spans, start));
                }
            },
        }
        c
    }

    /// Draw an axis-aligned rectangle: one four-point path with corners at
    /// (x, y), (x+w, y), (x+w, y+h), (x, y+h), in that order, each
    /// transformed by the active transform.
    pub fn rectangle(self, x: i64, y: i64, width: i64, height: i64) -> (r: Canvas)
        requires
            self.wf(),
            fx_wf(x as int),
            fx_wf(y as int),
            fx_wf(x + width),
            fx_wf(y + height),
            self.points@.len() + 4 <= usize::MAX,
        ensures
            r.points@ == self.points@ + rectangle_corners(self.transform, x, y, width, height),
            r.figures@ == self.figures@,
            r.path_in_progress@ == self.path_in_progress@.push(
                PathSpan { start: self.points@.len() as usize, len: 4 },
            ),
            r.transform == self.transform,
            r.wf(),
    {
        let ghost orig = self;
        let c = self
            .move_to(x, y)
            .line_to(x + width, y)
            .line_to(x + width, y + height)
            .line_to(x, y + height);
        proof {
            assert(c.points@ =~= orig.points@ + rectangle_corners(orig.transform, x, y, width, height));
            assert(c.path_in_progress@ =~= orig.path_in_progress@.push(
                PathSpan { start: orig.points@.len() as usize, len: 4 },
            ));
        }
        c
    }

    /// Complete the current shape by giving it a solid fill: the open
    /// paths become one new figure and the open-path list is cleared (the
    /// point buffer is kept). With no open paths this records an empty
    /// figure, which draws nothing.
    pub fn fill(self, red: i64, green: i64, blue: i64, alpha: i64) -> (r: Canvas)
        requires
            self.wf(),
        ensures
            r.points@ == self.points@,
            r.figures@.len() == self.figures@.len() + 1,
            forall|i: int| 0 <= i < self.figures@.len() ==> r.figures@[i] == self.figures@[i],
            r.figures@.last().fill == Fill::SolidColor(Color { red, green, blue, alpha }),
            r.figures@.last().paths@ == self.path_in_progress@,
            r.path_in_progress@ == Seq::<PathSpan>::empty(),
            r.transform == self.transform,
            r.wf(),
    {
        let mut c = self;
        let mut paths: Vec<PathSpan> = Vec::new();
        core::mem::swap(&mut paths, &mut c.path_in_progress);
        c.figures.push(Figure { fill: Fill::SolidColor(Color { red, green, blue, alpha }), paths });
        c
    }

    /// Complete the current shape with a linear gradient fill running from
    /// the begin point and color to the end point and color. The gradient
    /// points are stored untransformed.
    pub fn fill_linear_gradient(
        self,
        begin_x: i64,
        begin_y: i64,
        end_x: i64,
        end_y: i64,
        begin_red: i64,
        begin_green: i64,
        begin_blue: i64,
        begin_alpha: i64,
        end_red: i64,
        end_green: i64,
        end_blue: i64,
        end_alpha: i64,
    ) -> (r: Canvas)
        requires
            self.wf(),
        ensures
            r.points@ == self.points@,
            r.figures@.len() == self.figures@.len() + 1,
            forall|i: int| 0 <= i < self.figures@.len() ==> r.figures@[i] == self.figures@[i],
            r.figures@.last().fill == Fill::LinearGradient(
                Point { x: begin_x, y: begin_y },
                Point { x: end_x, y: end_y },
                Color { red: begin_red, green: begin_green, blue: begin_blue, alpha: begin_alpha },
                Color { red: end_red, green: end_green, blue: end_blue, alpha: end_alpha },
            ),
            r.figures@.last().paths@ == self.path_in_progress@,
            r.path_in_progress@ == Seq::<PathSpan>::empty(),
            r.transform == self.transform,
            r.wf(),
    {
        let mut c = self;
        let mut paths: Vec<PathSpan> = Vec::new();
        core::mem::swap(&mut paths, &mut c.path_in_progress);
        c.figures.push(
            Figure {
                fill: Fill::LinearGradient(
                    Point { x: begin_x, y: begin_y },
                    Point { x: end_x, y: end_y },
                    Color {
                        red: begin_red,
                        green: begin_green,
                        blue: begin_blue,
                        alpha: begin_alpha,
                    },
                    Color { red: end_red, green: end_green, blue: end_blue, alpha: end_alpha },
                ),
                paths,
            },
        );
        c
    }

    /// Complete the current shape with an image fill: the texture of the
    /// given image is mapped onto the axis-aligned box with origin (x, y)
    /// and size (width, height).
    pub fn fill_image(self, image: &Image, x: i64, y: i64, width: i64, height: i64) -> (r: Canvas)
        requires
            self.wf(),
        ensures
            r.points@ == self.points@,
            r.figures@.len() == self.figures@.len() + 1,
            forall|i: int| 0 <= i < self.figures@.len() ==> r.figures@[i] == self.figures@[i],
            r.figures@.last().fill == Fill::Image(
                image.texture_id,
                Point { x, y },
                Point { x: width, y: height },
            ),
            r.figures@.last().paths@ == self.path_in_progress@,
            r.path_in_progress@ == Seq::<PathSpan>::empty(),
            r.transform == self.transform,
            r.wf(),
    {
        let mut c = self;
        let mut paths: Vec<PathSpan> = Vec::new();
        core::mem::swap(&mut paths, &mut c.path_in_progress);
        c.figures.push(
            Figure {
                fill: Fill::Image(image.texture_id, Point { x, y }, Point { x: width, y: height }),
                paths,
            },
        );
        c
    }

    /// Copy another canvas into this one: its points are appended and its
    /// figures are appended with every path start shifted by this canvas's
    /// point count at merge time, so the copied figures keep referring to
    /// their own points.
    pub fn attach(self, other: &Canvas) -> (r: Canvas)
        requires
            self.wf(),
            other.wf(),
            self.points@.len() + other.points@.len() <= usize::MAX,
        ensures
            r.points@ == self.points@ + other.points@,
            r.figures@.len() == self.figures@.len() + other.figures@.len(),
            forall|i: int| 0 <= i < self.figures@.len() ==> r.figures@[i] == self.figures@[i],
            forall|j: int|
                0 <= j < other.figures@.len() ==> offset_figure_eq(
                    #[trigger] r.figures@[self.figures@.len() + j],
                    other.figures@[j],
                    self.points@.len() as int,
                ),
            r.path_in_progress@ == self.path_in_progress@,
            r.transform == self.transform,
            r.wf(),
    {
        let mut c = self;
        let offset = c.points.len();
        let mut i: usize = 0;
        while i < other.points.len()
            invariant
                0 <= i <= other.points@.len(),
                c.points@ == self.points@ + other.points@.subrange(0, i as int),
                c.figures@ == self.figures@,
                c.path_in_progress@ == self.path_in_progress@,
                c.transform == self.transform,
                offset == self.points@.len(),
            decreases other.points@.len() - i,
        {
            c.points.push(other.points[i]);
            proof {
                assert(c.points@ =~= self.points@ + other.points@.subrange(0, i + 1));
            }
            i = i + 1;
        }
        proof {
            assert(c.points@ =~= self.points@ + other.points@);
        }
        let mut j: usize = 0;
        while j < other.figures.len()
            invariant
                0 <= j <= other.figures@.len(),
                c.points@ == self.points@ + other.points@,
                c.figures@.len() == self.figures@.len() + j,
                forall|i: int| 0 <= i < self.figures@.len() ==> c.figures@[i] == self.figures@[i],
                forall|t: int|
                    0 <= t < j ==> offset_figure_eq(
                        #[trigger] c.figures@[self.figures@.len() + t],
                        other.figures@[t],
                        self.points@.len() as int,
                    ),
                c.path_in_progress@ == self.path_in_progress@,
                c.transform == self.transform,
                offset == self.points@.len(),
                other.wf(),
                self.points@.len() + other.points@.len() <= usize::MAX,
            decreases other.figures@.len() - j,
        {
            let fig = &other.figures[j];
            let mut paths: Vec<PathSpan> = Vec::new();
            let mut k: usize = 0;
            while k < fig.paths.len()
                invariant
                    0 <= k <= fig.paths@.len(),
                    *fig == other.figures@[j as int],
                    0 <= j < other.figures@.len(),
                    paths@.len() == k,
                    forall|t: int|
                        0 <= t < k ==> #[trigger] paths@[t] == (PathSpan {
                            start: (fig.paths@[t].start + offset) as usize,
                            len: fig.paths@[t].len,
                        }),
                    offset == self.points@.len(),
                    other.wf(),
                    self.points@.len() + other.points@.len() <= usize::MAX,
                decreases fig.paths@.len() - k,
            {
                let span = fig.paths[k];
                proof {
                    assert(figure_wf(other.figures@[j as int], other.points@.len()));
                    assert(span_wf(fig.paths@[k as int], other.points@.len()));
                }
                paths.push(PathSpan { start: span.start + offset, len: span.len });
                k = k + 1;
            }
            c.figures.push(Figure { fill: fig.fill, paths });
            j = j + 1;
        }
        proof {
            lemma_attach_wf(self, *other, c);
        }
        c
    }
}

/// The merged canvas of `attach` satisfies the canvas invariant: old
/// spans stay valid in the longer buffer, and shifted spans of the copied
/// figures land inside it.
proof fn lemma_attach_wf(first: Canvas, second: Canvas, merged: Canvas)
    requires
        first.wf(),
        second.wf(),
        first.points@.len() + second.points@.len() <= usize::MAX,
        merged.points@.len() == first.points@.len() + second.points@.len(),
        merged.figures@.len() == first.figures@.len() + second.figures@.len(),
        forall|i: int| 0 <= i < first.figures@.len() ==> merged.figures@[i] == first.figures@[i],
        forall|j: int|
            0 <= j < second.figures@.len() ==> offset_figure_eq(
                #[trigger] merged.figures@[first.figures@.len() + j],
                second.figures@[j],
                first.points@.len() as int,
            ),
        merged.path_in_progress@ == first.path_in_progress@,
        merged.transform == first.transform,
    ensures
        merged.wf(),
{
    let n = merged.points@.len();
    assert forall|i: int| 0 <= i < merged.figures@.len() implies figure_wf(
        #[trigger] merged.figures@[i],
        n,
    ) by {
        if i < first.figures@.len() {
            assert(figure_wf(first.figures@[i], first.points@.len()));
            assert forall|k: int| 0 <= k < merged.figures@[i].paths@.len() implies span_wf(
                #[trigger] merged.figures@[i].paths@[k],
                n,
            ) by {
                assert(span_wf(first.figures@[i].paths@[k], first.points@.len()));
            }
        } else {
            let j = i - first.figures@.len();
            assert(offset_figure_eq(
                merged.figures@[first.figures@.len() + j],
                second.figures@[j],
                first.points@.len() as int,
            ));
            assert(figure_wf(second.figures@[j], second.points@.len()));
            assert forall|k: int| 0 <= k < merged.figures@[i].paths@.len() implies span_wf(
                #[trigger] merged.figures@[i].paths@[k],
                n,
            ) by {
                assert(span_wf(second.figures@[j].paths@[k], second.points@.len()));
                assert(merged.figures@[i].paths@[k] == (PathSpan {
                    start: (second.figures@[j].paths@[k].start + first.points@.len()) as usize,
                    len: second.figures@[j].paths@[k].len,
                }));
            }
        }
    }
    assert forall|i: int| 0 <= i < merged.path_in_progress@.len() implies span_wf(
        #[trigger] merged.path_in_progress@[i],
        n,
    ) by {
        assert(span_wf(first.path_in_progress@[i], first.points@.len()));
    }
}

/// Entrywise bound check used when composing transforms.
fn in_bound(v: i64) -> (r: bool)
    ensures
        r == fx_wf(v as int),
{
    -FX_BOUND <= v && v <= FX_BOUND
}

/// The product `t * m` when all its entries are well formed, otherwise `t`
/// unchanged. This is the exact effect of `rotate` and `translate` on the
/// current transform.
pub open spec fn compose_or_keep(t: Matrix, m: Matrix) -> Matrix {
    if mat_mul_wf(t, m) {
        Matrix {
            a: mat_mul_a(t, m) as i64,
            b: mat_mul_b(t, m) as i64,
            c: mat_mul_c(t, m) as i64,
            d: mat_mul_d(t, m) as i64,
            e: mat_mul_e(t, m) as i64,
            f: mat_mul_f(t, m) as i64,
        }
    } else {
        t
    }
}

/// All entries of the product `t * m` are well formed.
pub open spec fn mat_mul_wf(t: Matrix, m: Matrix) -> bool {
    &&& fx_wf(mat_mul_a(t, m))
    &&& fx_wf(mat_mul_b(t, m))
    &&& fx_wf(mat_mul_c(t, m))
    &&& fx_wf(mat_mul_d(t, m))
    &&& fx_wf(mat_mul_e(t, m))
    &&& fx_wf(mat_mul_f(t, m))
}

/// The open-path list after a `line_to` whose point lands at index
/// `new_index`: the last open path grows by one, or an implicit one-point
/// path is opened when the list is empty.
pub open spec fn line_to_spans(spans: Seq<PathSpan>, new_index: usize) -> Seq<PathSpan> {
    if spans.len() == 0 {
        spans.push(PathSpan { start: new_index, len: 1 })
    } else {
        spans.update(
            spans.len() - 1,
            PathSpan {
                start: spans.last().start,
                len: (spans.last().len + 1) as usize,
            },
        )
    }
}

/// The four corner points appended by `rectangle`, transformed by `t`.
pub open spec fn rectangle_corners(t: Matrix, x: i64, y: i64, width: i64, height: i64) -> Seq<
    Point,
> {
    seq![
        apply_point(t, Point { x, y }),
        apply_point(t, Point { x: (x + width) as i64, y }),
        apply_point(t, Point { x: (x + width) as i64, y: (y + height) as i64 }),
        apply_point(t, Point { x, y: (y + height) as i64 }),
    ]
}

/// Figure `merged` is figure `orig` with every path start shifted by
/// `offset` into the merged point buffer.
pub open spec fn offset_figure_eq(merged: Figure, orig: Figure, offset: int) -> bool {
    &&& merged.fill == orig.fill
    &&& merged.paths@.len() == orig.paths@.len()
    &&& forall|k: int|
        0 <= k < orig.paths@.len() ==> #[trigger] merged.paths@[k] == (PathSpan {
            start: (orig.paths@[k].start + offset) as usize,
            len: orig.paths@[k].len,
        })
}

} // verus!
