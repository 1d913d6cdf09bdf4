//! The fixed render pipeline and the commands of one render pass.

use crate::graphics::bind_group_layouts::BindGroupLayout;
use crate::graphics::bind_groups::BindGroup;
use crate::graphics::buffers::{buffer_of, Buffer};
use crate::graphics::structures::{
    Resource, VERTEX_NORMAL_OFFSET, VERTEX_POSITION_OFFSET, VERTEX_SIZE, VERTEX_UV_OFFSET,
};
use core::ops::Range;
use vstd::prelude::*;

verus! {

/// The format of one vertex attribute.
#[derive(Clone, Copy, Debug, PartialEq, Eq)]
pub enum VertexFormat {
    /// Two 4-byte scalars.
    Float32x2,
    /// Four 4-byte scalars.
    Float32x4,
}

impl VertexFormat {
    /// Bytes that an attribute of this format takes.
    pub open spec fn size(self) -> int {
        match self {
            VertexFormat::Float32x2 => 8,
            VertexFormat::Float32x4 => 16,
        }
    }
}

/// Whether a vertex buffer advances per vertex or per instance.
#[derive(Clone, Copy, Debug, PartialEq, Eq)]
pub enum VertexStepMode {
    Vertex,
    Instance,
}

/// One attribute that the vertex stage reads from a vertex record.
#[derive(Clone, Copy, Debug, PartialEq, Eq)]
pub struct VertexAttribute {
    pub format: VertexFormat,
    pub offset: u64,
    pub shader_location: u32,
}

/// How vertex records lie in the vertex buffer.
#[derive(Clone, Copy, Debug, PartialEq, Eq)]
pub struct VertexBufferLayout {
    pub array_stride: u64,
    pub step_mode: VertexStepMode,
    pub attributes: [VertexAttribute; 3],
}

/// The texture formats that the renderer names.
#[derive(Clone, Copy, Debug, PartialEq, Eq)]
pub enum TextureFormat {
    Bgra8UnormSrgb,
    Depth32Float,
}

/// How a fragment is combined with what the target already holds.
#[derive(Clone, Copy, Debug, PartialEq, Eq)]
pub enum BlendState {
    /// The fragment replaces the stored color: no blending.
    Replace,
    /// The fragment is blended over the stored color by its alpha.
    AlphaBlending,
}

/// The color channels that a draw may write.
#[derive(Clone, Copy, Debug, PartialEq, Eq)]
pub struct ColorWrites {
    pub red: bool,
    pub green: bool,
    pub blue: bool,
    pub alpha: bool,
}

/// The color target of the fragment stage.
#[derive(Clone, Copy, Debug, PartialEq, Eq)]
pub struct ColorTargetState {
    pub format: TextureFormat,
    pub blend: Option<BlendState>,
    pub write_mask: ColorWrites,
}

/// A side of a triangle.
#[derive(Clone, Copy, Debug, PartialEq, Eq)]
pub enum Face {
    Front,
    Back,
}

/// The test that a fragment's depth has to pass against the stored depth.
#[derive(Clone, Copy, Debug, PartialEq, Eq)]
pub enum CompareFunction {
    Never,
    Less,
    Equal,
    LessEqual,
    Greater,
    NotEqual,
    GreaterEqual,
    Always,
}

/// The depth test of the pipeline.
#[derive(Clone, Copy, Debug, PartialEq, Eq)]
pub struct DepthStencilState {
    pub format: TextureFormat,
    pub depth_write_enabled: bool,
    pub depth_compare: CompareFunction,
}

/// The description of the render pipeline. What it leaves unsaid is the
/// graphics interface's default.
#[derive(Debug, PartialEq, Eq)]
pub struct RenderPipeline {
    pub bind_group_layouts: Vec<BindGroupLayout>,
    pub vertex_entry_point: &'static str,
    pub vertex_buffer: VertexBufferLayout,
    pub fragment_entry_point: &'static str,
    pub color_target: ColorTargetState,
    pub cull_mode: Option<Face>,
    pub depth_stencil: DepthStencilState,
}

/// The image that a view shows.
#[derive(Clone, Copy, Debug, PartialEq, Eq)]
pub enum TextureKind {
    /// The image that the drawable surface hands out for the frame.
    Surface,
    /// The depth target.
    Depth,
}

/// A view of a whole two-dimensional image.
#[derive(Clone, Copy, Debug, PartialEq, Eq)]
pub struct TextureView {
    pub kind: TextureKind,
    pub width: u32,
    pub height: u32,
}

/// The colors that a target can be cleared to.
#[derive(Clone, Copy, Debug, PartialEq, Eq)]
pub enum Color {
    Transparent,
    Black,
    White,
}

/// The depths that a target can be cleared to.
#[derive(Clone, Copy, Debug, PartialEq, Eq)]
pub enum ClearDepth {
    /// Depth 0, the far plane under reversed depth.
    Zero,
    /// Depth 1, the near plane under reversed depth.
    One,
}

/// What happens to an attachment when the pass begins.
#[derive(Debug, PartialEq, Eq)]
pub enum LoadOp<V> {
    Clear(V),
    Load,
}

/// What happens to an attachment when the pass ends.
#[derive(Clone, Copy, Debug, PartialEq, Eq)]
pub enum StoreOp {
    Store,
    Discard,
}

/// The load and store operations of one attachment.
#[derive(Debug, PartialEq, Eq)]
pub struct Operations<V> {
    pub load: LoadOp<V>,
    pub store: StoreOp,
}

/// One recorded command.
#[derive(Debug, PartialEq, Eq)]
pub enum Command {
    /// Begins a pass on a color and a depth attachment.
    BeginRenderPass {
        color_view: TextureView,
        color_ops: Operations<Color>,
        depth_view: TextureView,
        depth_ops: Operations<ClearDepth>,
    },
    /// Makes the pass's pipeline current.
    SetPipeline,
    /// Puts a bind group at a slot index.
    SetBindGroup { index: u32, bind_group: BindGroup },
    /// Puts the whole of a buffer at a vertex buffer slot.
    SetVertexBuffer { slot: u32, buffer: Buffer },
    /// Draws a range of vertices for a range of instances.
    Draw { vertices: Range<u32>, instances: Range<u32> },
    /// Ends the pass.
    EndRenderPass,
}

/// Records commands in the order in which they are to run.
#[derive(Debug, PartialEq, Eq)]
pub struct CommandEncoder {
    pub commands: Vec<Command>,
}

impl View for CommandEncoder {
    type V = Seq<Command>;

    open spec fn view(&self) -> Seq<Command> {
        self.commands@
    }
}

impl CommandEncoder {
    /// An encoder that has recorded nothing.
    pub fn new() -> (out: Self)
        ensures
            out@ == Seq::<Command>::empty(),
    {
        CommandEncoder { commands: Vec::new() }
    }

    /// Closes the recording and hands out the commands.
    pub fn finish(self) -> (out: Vec<Command>)
        ensures
            out@ == self@,
    {
        self.commands
    }
}

/// The vertex layout that the vertex stage consumes: position, normal and
/// texture coordinate at their offsets in a record of `VERTEX_SIZE` bytes.
pub open spec fn vertex_layout() -> VertexBufferLayout {
    VertexBufferLayout {
        array_stride: VERTEX_SIZE,
        step_mode: VertexStepMode::Vertex,
        attributes: [
            VertexAttribute {
                format: VertexFormat::Float32x4,
                offset: VERTEX_POSITION_OFFSET,
                shader_location: 0,
            },
            VertexAttribute {
                format: VertexFormat::Float32x4,
                offset: VERTEX_NORMAL_OFFSET,
                shader_location: 1,
            },
            VertexAttribute {
                format: VertexFormat::Float32x2,
                offset: VERTEX_UV_OFFSET,
                shader_location: 2,
            },
        ],
    }
}

impl VertexBufferLayout {
    /// Whether attribute `i` ends inside the record.
    pub open spec fn inside(&self, i: int) -> bool {
        self.attributes[i].offset + self.attributes[i].format.size() <= self.array_stride
    }

    /// Whether attribute `i` ends before attribute `j` begins.
    pub open spec fn before(&self, i: int, j: int) -> bool {
        self.attributes[i].offset + self.attributes[i].format.size() <= self.attributes[j].offset
    }

    /// Whether the attributes lie one after the other inside one record and
    /// have distinct shader locations.
    pub open spec fn well_formed(&self) -> bool {
        &&& self.before(0, 1)
        &&& self.before(1, 2)
        &&& self.inside(2)
        &&& self.attributes[0].shader_location != self.attributes[1].shader_location
        &&& self.attributes[0].shader_location != self.attributes[2].shader_location
        &&& self.attributes[1].shader_location != self.attributes[2].shader_location
    }
}

impl RenderPipeline {
    /// Whether this is the fixed pipeline over `bind_group_layouts`: the
    /// vertex and the fragment entry point, the vertex layout, an opaque
    /// color target, back faces culled, and a depth test that passes what
    /// is at least as near as the stored depth, as reversed depth needs.
    pub open spec fn describes(&self, bind_group_layouts: Seq<BindGroupLayout>) -> bool {
        &&& self.bind_group_layouts@ == bind_group_layouts
        &&& self.vertex_entry_point@ == "main_vertex"@
        &&& self.vertex_buffer == vertex_layout()
        &&& self.fragment_entry_point@ == "main_fragment"@
        &&& self.color_target == (ColorTargetState {
            format: TextureFormat::Bgra8UnormSrgb,
            blend: Some(BlendState::Replace),
            write_mask: ColorWrites { red: true, green: true, blue: true, alpha: true },
        })
        &&& self.cull_mode == Some(Face::Back)
        &&& self.depth_stencil == (DepthStencilState {
            format: TextureFormat::Depth32Float,
            depth_write_enabled: true,
            depth_compare: CompareFunction::GreaterEqual,
        })
    }
}

/// The number of vertices that a draw over a vertex buffer of `buffer_size`
/// bytes covers: the whole records in it, as a 32-bit count.
pub open spec fn draw_vertex_count(buffer_size: u64) -> u32 {
    (buffer_size / VERTEX_SIZE) as u32
}

/// The commands that put `bind_groups` at the slot indices 0, 1, .. in
/// order.
pub open spec fn bind_commands(bind_groups: Seq<BindGroup>) -> Seq<Command> {
    Seq::new(
        bind_groups.len(),
        |i: int| Command::SetBindGroup { index: i as u32, bind_group: bind_groups[i] },
    )
}

/// The commands that open the pass: color cleared to black, depth cleared
/// to 0, both stored; then the pipeline.
pub open spec fn pass_head(view: TextureView, depth_view: TextureView) -> Seq<Command> {
    seq![
        Command::BeginRenderPass {
            color_view: view,
            color_ops: Operations { load: LoadOp::Clear(Color::Black), store: StoreOp::Store },
            depth_view,
            depth_ops: Operations { load: LoadOp::Clear(ClearDepth::Zero), store: StoreOp::Store },
        },
        Command::SetPipeline,
    ]
}

/// The commands that close the pass: the vertex buffer at slot 0, one draw
/// of every vertex in it for one instance, and the end of the pass.
pub open spec fn pass_tail(vertex_buffer: Buffer) -> Seq<Command> {
    seq![
        Command::SetVertexBuffer { slot: 0, buffer: vertex_buffer },
        Command::Draw {
            vertices: (Range { start: 0, end: draw_vertex_count(vertex_buffer.size) }),
            instances: (Range { start: 0, end: 1 }),
        },
        Command::EndRenderPass,
    ]
}

/// The commands of one whole render pass.
pub open spec fn pass_commands(
    view: TextureView,
    depth_view: TextureView,
    bind_groups: Seq<BindGroup>,
    vertex_buffer: Buffer,
) -> Seq<Command> {
    pass_head(view, depth_view) + bind_commands(bind_groups) + pass_tail(vertex_buffer)
}

/// The render stage: one pipeline, and the recording of one pass with it.
#[derive(Debug, PartialEq, Eq)]
pub struct RenderPass {
    pub pipeline: RenderPipeline,
}

impl RenderPass {
    /// Describes the pipeline over `bind_group_layouts`.
    pub fn new(bind_group_layouts: &[&BindGroupLayout]) -> (out: Self)
        ensures
            out.pipeline.describes(bind_group_layouts@.map_values(|l: &BindGroupLayout| *l)),
    {
        let mut layouts: Vec<BindGroupLayout> = Vec::new();
        let mut i: usize = 0;
        while i < bind_group_layouts.len()
            invariant
                i <= bind_group_layouts.len(),
                layouts@ == bind_group_layouts@.map_values(|l: &BindGroupLayout| *l).subrange(
                    0,
                    i as int,
                ),
            decreases bind_group_layouts.len() - i,
        {
            layouts.push(*bind_group_layouts[i]);
            i += 1;
        }

        let pipeline = RenderPipeline {
            bind_group_layouts: layouts,
            vertex_entry_point: "main_vertex",
            vertex_buffer: VertexBufferLayout {
                array_stride: VERTEX_SIZE,
                step_mode: VertexStepMode::Vertex,
                attributes: [
                    VertexAttribute {
                        format: VertexFormat::Float32x4,
                        offset: VERTEX_POSITION_OFFSET,
                        shader_location: 0,
                    },
                    VertexAttribute {
                        format: VertexFormat::Float32x4,
                        offset: VERTEX_NORMAL_OFFSET,
                        shader_location: 1,
                    },
                    VertexAttribute {
                        format: VertexFormat::Float32x2,
                        offset: VERTEX_UV_OFFSET,
                        shader_location: 2,
                    },
                ],
            },
            fragment_entry_point: "main_fragment",
            color_target: ColorTargetState {
                format: TextureFormat::Bgra8UnormSrgb,
                blend: Some(BlendState::Replace),
                write_mask: ColorWrites { red: true, green: true, blue: true, alpha: true },
            },
            cull_mode: Some(Face::Back),
            depth_stencil: DepthStencilState {
                format: TextureFormat::Depth32Float,
                depth_write_enabled: true,
                depth_compare: CompareFunction::GreaterEqual,
            },
        };

        assert(pipeline.bind_group_layouts@ =~= bind_group_layouts@.map_values(
            |l: &BindGroupLayout| *l,
        ));
        RenderPass { pipeline }
    }

    /// Records one render pass after what `encoder` already holds: the
    /// attachments cleared, the pipeline, each bind group at its index, the
    /// vertex buffer, and one draw of all its vertices.
    pub fn encode(
        &self,
        encoder: &mut CommandEncoder,
        view: &TextureView,
        depth_view: &TextureView,
        bind_groups: &[&BindGroup],
        vertex_buffer: &Buffer,
    )
        ensures
            final(encoder)@ == old(encoder)@ + pass_commands(
                *view,
                *depth_view,
                bind_groups@.map_values(|g: &BindGroup| *g),
                *vertex_buffer,
            ),
    {
        encoder.commands.push(
            Command::BeginRenderPass {
                color_view: *view,
                color_ops: Operations { load: LoadOp::Clear(Color::Black), store: StoreOp::Store },
                depth_view: *depth_view,
                depth_ops: Operations {
                    load: LoadOp::Clear(ClearDepth::Zero),
                    store: StoreOp::Store,
                },
            },
        );
        encoder.commands.push(Command::SetPipeline);

        let mut i: usize = 0;
        while i < bind_groups.len()
            invariant
                i <= bind_groups.len(),
                encoder@ == old(encoder)@ + pass_head(*view, *depth_view) + bind_commands(
                    bind_groups@.map_values(|g: &BindGroup| *g),
                ).subrange(0, i as int),
            decreases bind_groups.len() - i,
        {
            encoder.commands.push(
                Command::SetBindGroup {
                    index: #[verifier::truncate] (i as u32),
                    bind_group: *bind_groups[i],
                },
            );
            i += 1;
        }

        encoder.commands.push(Command::SetVertexBuffer { slot: 0, buffer: *vertex_buffer });
        encoder.commands.push(
            Command::Draw {
                vertices: 0..(#[verifier::truncate] ((vertex_buffer.size / VERTEX_SIZE) as u32)),
                instances: 0..1,
            },
        );
        encoder.commands.push(Command::EndRenderPass);
    }
}

/// The vertex layout of the pipeline is well formed, and its stride is the
/// size by which the vertex buffer is counted.
pub proof fn lemma_vertex_layout_well_formed()
    ensures
        vertex_layout().well_formed(),
        vertex_layout().array_stride == VERTEX_SIZE,
{
}

/// A draw covers as many vertices as whole records fit in the buffer,
/// counted modulo 2^32.
pub proof fn lemma_draw_vertex_count(buffer_size: u64)
    ensures
        draw_vertex_count(buffer_size) == (buffer_size / VERTEX_SIZE) % 0x1_0000_0000,
{
    let records: u64 = buffer_size / VERTEX_SIZE;
    assert(records as u32 == records % 0x1_0000_0000) by (bit_vector);
}

/// A render pass over the vertex buffer of a pool made for `vertex_count`
/// vertices issues one draw, and that draw covers exactly `vertex_count`
/// vertices and one instance, as long as the count fits in 32 bits.
pub proof fn lemma_draw_covers_pool(
    view: TextureView,
    depth_view: TextureView,
    bind_groups: Seq<BindGroup>,
    vertex_count: u64,
)
    requires
        vertex_count <= u32::MAX,
    ensures
        draw_vertex_count(buffer_of(Resource::Vertices, vertex_count).size) == vertex_count,
        ({
            let commands = pass_commands(
                view,
                depth_view,
                bind_groups,
                buffer_of(Resource::Vertices, vertex_count),
            );
            forall|i: int|
                0 <= i < commands.len() ==> (#[trigger] commands[i] is Draw <==> i == commands.len()
                    - 2)
        }),
        ({
            let commands = pass_commands(
                view,
                depth_view,
                bind_groups,
                buffer_of(Resource::Vertices, vertex_count),
            );
            commands[commands.len() - 2] == Command::Draw {
                vertices: (Range { start: 0u32, end: vertex_count as u32 }),
                instances: (Range { start: 0u32, end: 1u32 }),
            }
        }),
{
}

} // verus!
