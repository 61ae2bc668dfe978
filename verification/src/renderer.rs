//! The renderer: turns a canvas into an explicit, exact sequence of
//! drawing commands.
//!
//! Filling works without triangulation. Each figure is drawn in two
//! passes over its paths: first every path is rasterized as a triangle
//! fan into the stencil buffer with the INVERT operation and color writes
//! off, so a pixel ends marked exactly when it is covered an odd number
//! of times - which is what makes concave and self-intersecting polygons,
//! and holes from opposite sub-paths, resolve correctly. Then the same
//! fans are drawn once more with color writes on and the stencil test set
//! to EQUAL, so only marked pixels receive the fill. The stencil buffer
//! is cleared before each figure so figures cannot contaminate one
//! another.
//!
//! The command list is pure data: executing it against a GPU context is
//! the caller's business. Producing it is a pure function of the
//! renderer's handles, the viewport and the canvas, which is why drawing
//! the same canvas twice yields identical command sequences.

use vstd::prelude::*;
use crate::canvas::{figure_wf, span_wf, Canvas, Figure, Fill, PathSpan};

verus! {

/// Stencil test functions used by the two passes.
#[derive(Clone, Copy, Debug, PartialEq, Eq, Structural)]
pub enum StencilFuncKind {
    /// Every fragment passes (first pass).
    Always,
    /// Only fragments whose stencil value equals the reference pass
    /// (second pass).
    Equal,
}

/// Stencil buffer update operations used by the two passes.
#[derive(Clone, Copy, Debug, PartialEq, Eq, Structural)]
pub enum StencilOpKind {
    /// Invert the stencil bits of every covered pixel (first pass).
    Invert,
    /// Leave the stencil buffer unchanged (second pass).
    Keep,
}

/// One drawing command. A command list is self-contained apart from the
/// point data, which the executor uploads from the canvas itself when it
/// meets `UploadPoints`.
#[derive(Clone, Copy, Debug, PartialEq, Eq, Structural)]
pub enum Cmd {
    /// Bind the renderer's vertex array object.
    BindVertexArray(u32),
    /// Activate the renderer's shader program.
    UseProgram(u32),
    /// Make the vertex buffer large enough for this many points.
    SizePointBuffer(usize),
    /// Upload the canvas's first `n` points (its whole buffer) into the
    /// vertex buffer in one transfer.
    UploadPoints(usize),
    /// Tell the shader the viewport size in pixels, so it can map device
    /// coordinates to clip coordinates.
    SetViewsize(u16, u16),
    /// Enable or disable the stencil test.
    SetStencilTest(bool),
    /// Set the fill-specific shader state for the next figure.
    SetFill(Fill),
    /// Clear the stencil buffer (before each figure).
    ClearStencil,
    /// Allow writing to all stencil bits.
    SetStencilMask(u32),
    /// Set the stencil function with reference value and mask.
    SetStencilFunc(StencilFuncKind, u32, u32),
    /// Set the stencil operation applied to covered pixels.
    SetStencilOp(StencilOpKind),
    /// Enable or disable writes to the color buffer.
    SetColorMask(bool),
    /// Draw `len` points starting at `start` as a triangle fan.
    DrawTriangleFan(usize, usize),
}

/// Owns the GPU-side object handles: a vertex array, a vertex buffer and
/// the compiled shader program. The handles are created and released by
/// the caller that owns the graphics context.
#[derive(Clone, Copy, Debug, PartialEq, Eq, Structural)]
pub struct Renderer {
    pub vao: u32,
    pub vbo: u32,
    pub program: u32,
}

/// The stencil pass over one path: mark covered-an-odd-number-of-times
/// pixels, with color writes off.
pub open spec fn stencil_pass_cmds(s: PathSpan) -> Seq<Cmd> {
    seq![
        Cmd::SetStencilMask(0xff),
        Cmd::SetStencilFunc(StencilFuncKind::Always, 0, 0xff),
        Cmd::SetStencilOp(StencilOpKind::Invert),
        Cmd::SetColorMask(false),
        Cmd::DrawTriangleFan(s.start, s.len),
    ]
}

/// The color pass over one path: draw the same fan again, coloring only
/// pixels the stencil pass marked.
pub open spec fn color_pass_cmds(s: PathSpan) -> Seq<Cmd> {
    seq![
        Cmd::SetColorMask(true),
        Cmd::SetStencilFunc(StencilFuncKind::Equal, 0xff, 0xff),
        Cmd::SetStencilOp(StencilOpKind::Keep),
        Cmd::DrawTriangleFan(s.start, s.len),
    ]
}

/// Stencil passes for the first `n` paths, in order.
pub open spec fn stencil_passes(paths: Seq<PathSpan>, n: int) -> Seq<Cmd>
    decreases n,
{
    if n <= 0 {
        Seq::empty()
    } else {
        stencil_passes(paths, n - 1) + stencil_pass_cmds(paths[n - 1])
    }
}

/// Color passes for the first `n` paths, in order.
pub open spec fn color_passes(paths: Seq<PathSpan>, n: int) -> Seq<Cmd>
    decreases n,
{
    if n <= 0 {
        Seq::empty()
    } else {
        color_passes(paths, n - 1) + color_pass_cmds(paths[n - 1])
    }
}

/// All commands for one figure: isolate the stencil state, set the fill,
/// stencil every sub-path, then color every sub-path. Stenciling all
/// sub-paths before coloring lets overlapping sub-paths cancel, which is
/// what makes holes work.
pub open spec fn figure_cmds(f: Figure) -> Seq<Cmd> {
    seq![Cmd::ClearStencil, Cmd::SetFill(f.fill)] + stencil_passes(f.paths@, f.paths@.len() as int)
        + color_passes(f.paths@, f.paths@.len() as int)
}

/// Commands for the first `n` figures, in order.
pub open spec fn figures_cmds(figs: Seq<Figure>, n: int) -> Seq<Cmd>
    decreases n,
{
    if n <= 0 {
        Seq::empty()
    } else {
        figures_cmds(figs, n - 1) + figure_cmds(figs[n - 1])
    }
}

/// The frame preamble: activate the renderer's objects, size and fill the
/// vertex buffer from the canvas, publish the viewport, enable stenciling.
pub open spec fn plan_head(r: Renderer, width: u16, height: u16, c: Canvas) -> Seq<Cmd> {
    seq![
        Cmd::BindVertexArray(r.vao),
        Cmd::UseProgram(r.program),
        Cmd::SizePointBuffer(c.points@.len() as usize),
        Cmd::UploadPoints(c.points@.len() as usize),
        Cmd::SetViewsize(width, height),
        Cmd::SetStencilTest(true),
    ]
}

/// The full command sequence for drawing `c` at the given viewport size:
/// the preamble, every figure's commands in order, and disabling the
/// stencil test. A pure function of its arguments - it reads only the
/// canvas's points and figures, never the transient builder state.
pub open spec fn plan(r: Renderer, width: u16, height: u16, c: Canvas) -> Seq<Cmd> {
    plan_head(r, width, height, c) + figures_cmds(c.figures@, c.figures@.len() as int) + seq![
        Cmd::SetStencilTest(false),
    ]
}

impl Renderer {
    /// Wrap the GPU object handles this renderer will use. The caller
    /// must have created them in a current graphics context.
    pub fn new(vao: u32, vbo: u32, program: u32) -> (r: Renderer)
        ensures
            r == (Renderer { vao, vbo, program }),
    {
        Renderer { vao, vbo, program }
    }

    /// Produce the exact command sequence that draws `canvas` at the given
    /// viewport size: `plan(self, width, height, canvas)`, nothing more
    /// and nothing less.
    pub fn draw_canvas(&self, window_width: u16, window_height: u16, canvas: &Canvas) -> (cmds: Vec<
        Cmd,
    >)
        requires
            canvas.wf(),
        ensures
            cmds@ == plan(*self, window_width, window_height, *canvas),
    {
        let mut out: Vec<Cmd> = Vec::new();
        out.push(Cmd::BindVertexArray(self.vao));
        out.push(Cmd::UseProgram(self.program));
        out.push(Cmd::SizePointBuffer(canvas.points.len()));
        out.push(Cmd::UploadPoints(canvas.points.len()));
        out.push(Cmd::SetViewsize(window_width, window_height));
        out.push(Cmd::SetStencilTest(true));
        let ghost head = plan_head(*self, window_width, window_height, *canvas);
        proof {
            assert(out@ =~= head);
        }
        let mut j: usize = 0;
        while j < canvas.figures.len()
            invariant
                0 <= j <= canvas.figures@.len(),
                out@ == head + figures_cmds(canvas.figures@, j as int),
            decreases canvas.figures@.len() - j,
        {
            let ghost fig_base = out@;
            let fig = &canvas.figures[j];
            out.push(Cmd::ClearStencil);
            out.push(Cmd::SetFill(fig.fill));
            let ghost pass_base = out@;
            let mut k: usize = 0;
            while k < fig.paths.len()
                invariant
                    0 <= k <= fig.paths@.len(),
                    out@ == pass_base + stencil_passes(fig.paths@, k as int),
                decreases fig.paths@.len() - k,
            {
                let s = fig.paths[k];
                out.push(Cmd::SetStencilMask(0xff));
                out.push(Cmd::SetStencilFunc(StencilFuncKind::Always, 0, 0xff));
                out.push(Cmd::SetStencilOp(StencilOpKind::Invert));
                out.push(Cmd::SetColorMask(false));
                out.push(Cmd::DrawTriangleFan(s.start, s.len));
                proof {
                    assert(out@ =~= pass_base + stencil_passes(fig.paths@, k + 1));
                }
                k = k + 1;
            }
            let ghost color_base = out@;
            let mut k2: usize = 0;
            while k2 < fig.paths.len()
                invariant
                    0 <= k2 <= fig.paths@.len(),
                    out@ == color_base + color_passes(fig.paths@, k2 as int),
                decreases fig.paths@.len() - k2,
            {
                let s = fig.paths[k2];
                out.push(Cmd::SetColorMask(true));
                out.push(Cmd::SetStencilFunc(StencilFuncKind::Equal, 0xff, 0xff));
                out.push(Cmd::SetStencilOp(StencilOpKind::Keep));
                out.push(Cmd::DrawTriangleFan(s.start, s.len));
                proof {
                    assert(out@ =~= color_base + color_passes(fig.paths@, k2 + 1));
                }
                k2 = k2 + 1;
            }
            proof {
                assert(out@ =~= fig_base + figure_cmds(canvas.figures@[j as int]));
                assert(out@ =~= head + figures_cmds(canvas.figures@, j + 1));
            }
            j = j + 1;
        }
        out.push(Cmd::SetStencilTest(false));
        proof {
            assert(out@ =~= plan(*self, window_width, window_height, *canvas));
        }
        out
    }
}

/// The integer the shader's `fill_type` uniform must be set to for a
/// fill: 1 for a solid color, 2 for a linear gradient, 3 for an image.
pub fn fill_type_code(fill: &Fill) -> (code: i32)
    ensures
        code == (match *fill {
            Fill::SolidColor(..) => 1int,
            Fill::LinearGradient(..) => 2int,
            Fill::Image(..) => 3int,
        }),
{
    match fill {
        Fill::SolidColor(..) => 1,
        Fill::LinearGradient(..) => 2,
        Fill::Image(..) => 3,
    }
}

/// A command never reads vertices outside a buffer of `n` points: if it
/// draws a triangle fan, the fan is non-empty and ends within the buffer.
pub open spec fn fan_in_range(cmd: Cmd, n: nat) -> bool {
    cmd matches Cmd::DrawTriangleFan(start, len) ==> start + len <= n && len >= 1
}

/// Both passes over the first `k` paths draw only fans that valid spans
/// describe: non-empty and inside a buffer of `n` points.
proof fn lemma_passes_fans_in_range(paths: Seq<PathSpan>, k: int, n: nat)
    requires
        forall|i: int| 0 <= i < paths.len() ==> span_wf(#[trigger] paths[i], n),
        k <= paths.len(),
    ensures
        forall|i: int|
            0 <= i < stencil_passes(paths, k).len() ==> fan_in_range(
                #[trigger] stencil_passes(paths, k)[i],
                n,
            ),
        forall|i: int|
            0 <= i < color_passes(paths, k).len() ==> fan_in_range(
                #[trigger] color_passes(paths, k)[i],
                n,
            ),
    decreases k,
{
    if k > 0 {
        lemma_passes_fans_in_range(paths, k - 1, n);
        assert(span_wf(paths[k - 1], n));
        let sprev = stencil_passes(paths, k - 1);
        let sstep = stencil_pass_cmds(paths[k - 1]);
        assert forall|i: int| 0 <= i < stencil_passes(paths, k).len() implies fan_in_range(
            #[trigger] stencil_passes(paths, k)[i],
            n,
        ) by {
            if i < sprev.len() {
                assert(stencil_passes(paths, k)[i] == sprev[i]);
                assert(fan_in_range(sprev[i], n));
            } else {
                assert(stencil_passes(paths, k)[i] == sstep[i - sprev.len()]);
            }
        }
        let cprev = color_passes(paths, k - 1);
        let cstep = color_pass_cmds(paths[k - 1]);
        assert forall|i: int| 0 <= i < color_passes(paths, k).len() implies fan_in_range(
            #[trigger] color_passes(paths, k)[i],
            n,
        ) by {
            if i < cprev.len() {
                assert(color_passes(paths, k)[i] == cprev[i]);
                assert(fan_in_range(cprev[i], n));
            } else {
                assert(color_passes(paths, k)[i] == cstep[i - cprev.len()]);
            }
        }
    }
}

/// The commands of the first `k` figures draw only fans inside a buffer
/// of `n` points, provided every figure's spans are valid for it.
proof fn lemma_figures_fans_in_range(figs: Seq<Figure>, k: int, n: nat)
    requires
        forall|i: int| 0 <= i < figs.len() ==> figure_wf(#[trigger] figs[i], n),
        k <= figs.len(),
    ensures
        forall|i: int|
            0 <= i < figures_cmds(figs, k).len() ==> fan_in_range(
                #[trigger] figures_cmds(figs, k)[i],
                n,
            ),
    decreases k,
{
    if k > 0 {
        lemma_figures_fans_in_range(figs, k - 1, n);
        assert(figure_wf(figs[k - 1], n));
        let paths = figs[k - 1].paths@;
        lemma_passes_fans_in_range(paths, paths.len() as int, n);
        let prev = figures_cmds(figs, k - 1);
        let head = seq![Cmd::ClearStencil, Cmd::SetFill(figs[k - 1].fill)];
        let stencil = stencil_passes(paths, paths.len() as int);
        let color = color_passes(paths, paths.len() as int);
        assert forall|i: int| 0 <= i < figures_cmds(figs, k).len() implies fan_in_range(
            #[trigger] figures_cmds(figs, k)[i],
            n,
        ) by {
            if i < prev.len() {
                assert(figures_cmds(figs, k)[i] == prev[i]);
                assert(fan_in_range(prev[i], n));
            } else {
                let j = i - prev.len();
                assert(figures_cmds(figs, k)[i] == figure_cmds(figs[k - 1])[j]);
                if j < 2 {
                    assert(figure_cmds(figs[k - 1])[j] == head[j]);
                } else if j < 2 + stencil.len() {
                    assert(figure_cmds(figs[k - 1])[j] == stencil[j - 2]);
                    assert(fan_in_range(stencil[j - 2], n));
                } else {
                    assert(figure_cmds(figs[k - 1])[j] == color[j - 2 - stencil.len()]);
                    assert(fan_in_range(color[j - 2 - stencil.len()], n));
                }
            }
        }
    }
}

/// Every triangle fan in the plan of a well-formed canvas lies within
/// the point buffer the plan itself uploads: the plan never makes the
/// GPU read vertices that were not transferred.
pub proof fn lemma_plan_fans_in_range(r: Renderer, width: u16, height: u16, c: Canvas)
    requires
        c.wf(),
    ensures
        forall|i: int|
            0 <= i < plan(r, width, height, c).len() ==> fan_in_range(
                #[trigger] plan(r, width, height, c)[i],
                c.points@.len(),
            ),
{
    let n = c.points@.len();
    lemma_figures_fans_in_range(c.figures@, c.figures@.len() as int, n);
    let head = plan_head(r, width, height, c);
    let middle = figures_cmds(c.figures@, c.figures@.len() as int);
    assert forall|i: int| 0 <= i < plan(r, width, height, c).len() implies fan_in_range(
        #[trigger] plan(r, width, height, c)[i],
        n,
    ) by {
        if i < head.len() {
            assert(plan(r, width, height, c)[i] == head[i]);
        } else if i < head.len() + middle.len() {
            assert(plan(r, width, height, c)[i] == middle[i - head.len()]);
            assert(fan_in_range(middle[i - head.len()], n));
        } else {
            assert(plan(r, width, height, c)[i] == Cmd::SetStencilTest(false));
        }
    }
}

/// Drawing reads only the scene - the points and the figures. Two
/// canvases that agree on those (whatever their transient transform or
/// open paths) produce the same command sequence, and in particular the
/// same canvas drawn twice produces identical command sequences.
pub proof fn lemma_plan_scene_determined(
    r: Renderer,
    width: u16,
    height: u16,
    c1: Canvas,
    c2: Canvas,
)
    requires
        c1.points@ == c2.points@,
        c1.figures@ == c2.figures@,
    ensures
        plan(r, width, height, c1) == plan(r, width, height, c2),
{
}

} // verus!
