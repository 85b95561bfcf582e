//! The fixed full-screen pipeline and the render pass that draws with it.
use vstd::prelude::*;
use crate::surface::PixelFormat;
use crate::frame::{Command, FrameContext, FrameView, GpuResource, Rgba8};

verus! {

/// How vertices are assembled into primitives.
#[derive(Clone, Copy, Debug, PartialEq, Eq, Structural)]
pub enum Topology {
    TriangleList,
}

/// The fixed-function state of a compiled pipeline.
#[derive(Clone, Copy, Debug, PartialEq, Eq, Structural)]
pub struct PipelineDesc {
    /// The pixel format that the pipeline writes.
    pub target_format: PixelFormat,
    pub topology: Topology,
    /// Number of bound resource groups.
    pub bind_groups: u32,
    /// Number of vertex buffers read by the vertex stage.
    pub vertex_buffers: u32,
    pub depth_stencil: bool,
    pub sample_count: u32,
    pub blending: bool,
    /// Whether all four color channels are written.
    pub write_all_channels: bool,
}

/// The pipeline every frame draws with, bound to `format`: no bound
/// resources, no vertex buffer, triangle list, no depth or stencil, one
/// sample, no blending, all channels written.
pub open spec fn fullscreen_pipeline(format: PixelFormat) -> PipelineDesc {
    PipelineDesc {
        target_format: format,
        topology: Topology::TriangleList,
        bind_groups: 0,
        vertex_buffers: 0,
        depth_stencil: false,
        sample_count: 1,
        blending: false,
        write_all_channels: true,
    }
}

/// The commands of one render pass with the pipeline bound to `format`:
/// clear to opaque black, bind the pipeline, draw vertices `0..3` once, close.
pub open spec fn pass_commands(format: PixelFormat) -> Seq<Command> {
    seq![
        Command::BeginRenderPass { clear: Rgba8::black_spec() },
        Command::SetPipeline { format },
        Command::Draw { vertex_start: 0, vertex_end: 3, instance_start: 0, instance_end: 1 },
        Command::EndRenderPass,
    ]
}

/// The draw commands of `s`, in order.
pub open spec fn draws(s: Seq<Command>) -> Seq<Command>
    decreases s.len(),
{
    if s.len() == 0 {
        Seq::empty()
    } else if s.last() is Draw {
        draws(s.drop_last()).push(s.last())
    } else {
        draws(s.drop_last())
    }
}

/// The number of render passes that `s` opens.
pub open spec fn passes_opened(s: Seq<Command>) -> nat
    decreases s.len(),
{
    if s.len() == 0 {
        0
    } else if s.last() is BeginRenderPass {
        passes_opened(s.drop_last()) + 1
    } else {
        passes_opened(s.drop_last())
    }
}

/// Draws and opened passes of a concatenation are those of its parts.
pub proof fn lemma_counts_of_concat(a: Seq<Command>, b: Seq<Command>)
    ensures
        draws(a + b) == draws(a) + draws(b),
        passes_opened(a + b) == passes_opened(a) + passes_opened(b),
    decreases b.len(),
{
    if b.len() == 0 {
        assert(a + b =~= a);
        assert(draws(b) =~= Seq::empty());
        assert(draws(a) + draws(b) =~= draws(a));
    } else {
        lemma_counts_of_concat(a, b.drop_last());
        assert((a + b).drop_last() =~= a + b.drop_last());
        assert((a + b).last() == b.last());
        if b.last() is Draw {
            assert(draws(a) + draws(b) =~= (draws(a) + draws(b.drop_last())).push(b.last()));
        }
    }
}

/// One render pass opens one pass and holds exactly one draw, of vertices
/// `0..3` and instances `0..1`.
pub proof fn lemma_pass_has_one_draw(format: PixelFormat)
    ensures
        draws(pass_commands(format)) == seq![
            Command::Draw { vertex_start: 0, vertex_end: 3, instance_start: 0, instance_end: 1 },
        ],
        passes_opened(pass_commands(format)) == 1,
{
    let p = pass_commands(format);
    assert(p.drop_last().drop_last().drop_last().drop_last() =~= Seq::<Command>::empty());
    reveal_with_fuel(draws, 5);
    reveal_with_fuel(passes_opened, 5);
    assert(draws(p) =~= seq![
        Command::Draw { vertex_start: 0, vertex_end: 3, instance_start: 0, instance_end: 1 },
    ]);
}

/// Owns the compiled full-screen pipeline and records the per-frame draw.
pub struct GpuConnector {
    pipeline: PipelineDesc,
}

impl View for GpuConnector {
    type V = PipelineDesc;

    closed spec fn view(&self) -> PipelineDesc {
        self.pipeline
    }
}

impl GpuConnector {
    /// Builds the full-screen pipeline for `gpu_res`. Its target format is the
    /// device's surface format: no other format can be given.
    pub fn new(gpu_res: &GpuResource) -> (r: GpuConnector)
        ensures
            r@ == fullscreen_pipeline(gpu_res@.config.format),
    {
        let format = gpu_res.config().format;
        GpuConnector {
            pipeline: PipelineDesc {
                target_format: format,
                topology: Topology::TriangleList,
                bind_groups: 0,
                vertex_buffers: 0,
                depth_stencil: false,
                sample_count: 1,
                blending: false,
                write_all_channels: true,
            },
        }
    }

    /// The compiled pipeline's fixed-function state.
    pub fn pipeline(&self) -> (r: PipelineDesc)
        ensures
            r == self@,
    {
        self.pipeline
    }

    /// Records one render pass into `frame`: cleared to opaque black, the
    /// pipeline bound, one draw of the full-screen triangle.
    pub fn render_pass(&mut self, frame: &mut FrameContext)
        ensures
            final(self)@ == old(self)@,
            final(frame)@ == (FrameView {
                commands: old(frame)@.commands + pass_commands(old(self)@.target_format),
                ..old(frame)@
            }),
            draws(final(frame)@.commands) == draws(old(frame)@.commands).push(
                Command::Draw { vertex_start: 0, vertex_end: 3, instance_start: 0, instance_end: 1 },
            ),
            passes_opened(final(frame)@.commands) == passes_opened(old(frame)@.commands) + 1,
    {
        frame.record(Command::BeginRenderPass { clear: Rgba8::black() });
        frame.record(Command::SetPipeline { format: self.pipeline.target_format });
        frame.record(Command::Draw { vertex_start: 0, vertex_end: 3, instance_start: 0, instance_end: 1 });
        frame.record(Command::EndRenderPass);
        proof {
            let f = self.pipeline.target_format;
            assert(final(frame)@.commands =~= old(frame)@.commands + pass_commands(f));
            lemma_counts_of_concat(old(frame)@.commands, pass_commands(f));
            lemma_pass_has_one_draw(f);
        }
    }
}

/// Clip-space position of vertex `index` of the full-screen triangle that the
/// vertex stage generates: `(-1, -1)`, `(3, -1)`, `(-1, 3)`.
pub open spec fn fullscreen_vertex_spec(index: int) -> (int, int) {
    (if index == 1 { 3 } else { -1 }, if index == 2 { 3 } else { -1 })
}

/// The position of vertex `index` (below 3) of the full-screen triangle.
pub fn fullscreen_vertex(index: u32) -> (r: (i32, i32))
    requires
        index < 3,
    ensures
        (r.0 as int, r.1 as int) == fullscreen_vertex_spec(index as int),
{
    (if index == 1 { 3 } else { -1 }, if index == 2 { 3 } else { -1 })
}

/// Twice the signed area of the triangle `a`, `b`, `p`: not negative when `p`
/// lies on the left of the edge from `a` to `b`.
pub open spec fn edge(a: (int, int), b: (int, int), p: (int, int)) -> int {
    (b.0 - a.0) * (p.1 - a.1) - (b.1 - a.1) * (p.0 - a.0)
}

/// Whether `p` lies in the full-screen triangle with its coordinates scaled
/// by `s`.
pub open spec fn in_fullscreen_triangle(s: int, p: (int, int)) -> bool {
    let scale = |v: (int, int)| (s * v.0, s * v.1);
    let a = scale(fullscreen_vertex_spec(0));
    let b = scale(fullscreen_vertex_spec(1));
    let c = scale(fullscreen_vertex_spec(2));
    edge(a, b, p) >= 0 && edge(b, c, p) >= 0 && edge(c, a, p) >= 0
}

/// The full-screen triangle covers the whole clip square: with coordinates
/// measured in units of `1 / s`, every point of `[-1, 1] x [-1, 1]` lies in it.
pub proof fn lemma_triangle_covers_viewport(s: int, x: int, y: int)
    requires
        s >= 1,
        -s <= x <= s,
        -s <= y <= s,
    ensures
        in_fullscreen_triangle(s, (x, y)),
{
    assert(edge((-s, -s), (3 * s, -s), (x, y)) == 4 * s * (y + s)) by (nonlinear_arith);
    assert(edge((3 * s, -s), (-s, 3 * s), (x, y)) == 4 * s * (2 * s - x - y)) by (nonlinear_arith);
    assert(edge((-s, 3 * s), (-s, -s), (x, y)) == 4 * s * (x + s)) by (nonlinear_arith);
    assert(4 * s * (y + s) >= 0) by (nonlinear_arith)
        requires s >= 1, y + s >= 0;
    assert(4 * s * (2 * s - x - y) >= 0) by (nonlinear_arith)
        requires s >= 1, 2 * s - x - y >= 0;
    assert(4 * s * (x + s) >= 0) by (nonlinear_arith)
        requires s >= 1, x + s >= 0;
    assert(s * -1 == -s && s * 3 == 3 * s);
}

} // verus!
