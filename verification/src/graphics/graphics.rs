//! The frame orchestrator: the surface size and what follows from it, the
//! captured input, and the plan of each update and each frame.

use crate::graphics::bind_group_layouts::{layout_of, BindGroupLayouts, BindGroupUsage};
use crate::graphics::bind_groups::BindGroups;
use crate::graphics::buffers::{Buffer, Buffers};
use crate::graphics::render_pass::{
    pass_commands, Command, CommandEncoder, RenderPass, TextureFormat, TextureKind, TextureView,
};
use crate::graphics::structures::{
    AspectRatio, Globals, KeyCode, Metadata, Resource, GLOBALS_SIZE, VIEW_SIZE,
};
use vstd::prelude::*;

verus! {

/// The number of vertices that the vertex buffer is made for.
pub const VERTEX_COUNT: u64 = 3;

/// A size in physical pixels, as the window reports it.
#[derive(Clone, Copy, Debug, PartialEq, Eq)]
pub struct PhysicalSize {
    pub width: u32,
    pub height: u32,
}

/// The size that the drawable surface is configured with.
#[derive(Clone, Copy, Debug, PartialEq, Eq)]
pub struct SurfaceConfiguration {
    pub width: u32,
    pub height: u32,
}

/// The extent of a texture.
#[derive(Clone, Copy, Debug, PartialEq, Eq)]
pub struct Extent3d {
    pub width: u32,
    pub height: u32,
    pub depth_or_array_layers: u32,
}

/// The number of dimensions of a texture.
#[derive(Clone, Copy, Debug, PartialEq, Eq)]
pub enum TextureDimension {
    D1,
    D2,
    D3,
}

/// The ways in which a texture may be used.
#[derive(Clone, Copy, Debug, PartialEq, Eq)]
pub struct TextureUsages {
    pub copy_src: bool,
    pub copy_dst: bool,
    pub texture_binding: bool,
    pub storage_binding: bool,
    pub render_attachment: bool,
}

/// The description of a texture.
#[derive(Clone, Copy, Debug, PartialEq, Eq)]
pub struct Texture {
    pub size: Extent3d,
    pub mip_level_count: u32,
    pub sample_count: u32,
    pub dimension: TextureDimension,
    pub format: TextureFormat,
    pub usage: TextureUsages,
}

/// The image that the surface hands out for one frame.
#[derive(Clone, Copy, Debug, PartialEq, Eq)]
pub struct SurfaceTexture {
    pub width: u32,
    pub height: u32,
}

/// Whether a key went down or came up.
#[derive(Clone, Copy, Debug, PartialEq, Eq)]
pub enum ElementState {
    Pressed,
    Released,
}

/// The physical key of a keyboard event.
#[derive(Clone, Copy, Debug, PartialEq, Eq)]
pub enum PhysicalKey {
    /// A key that the window system could name.
    Code(KeyCode),
    /// A key that it could not.
    Unidentified,
}

/// What the renderer reads of a keyboard event.
#[derive(Clone, Copy, Debug, PartialEq, Eq)]
pub struct KeyEvent {
    pub physical_key: PhysicalKey,
    pub state: ElementState,
}

/// What one update asks of the camera: the time to move for, the movement
/// keys that are held, and the factor on the speed.
#[derive(Clone, Copy, Debug, PartialEq, Eq)]
pub struct Motion {
    /// Nanoseconds since the previous frame began.
    pub delta_time: u64,
    /// Add the camera's forward direction.
    pub forward: bool,
    /// Subtract the camera's forward direction.
    pub backward: bool,
    /// Subtract the camera's right direction.
    pub left: bool,
    /// Add the camera's right direction.
    pub right: bool,
    /// Factor on the speed: 5 while the modifier is held, else 1.
    pub shift_multiplier: u32,
}

/// One overwrite of a range of a buffer from the host.
#[derive(Clone, Copy, Debug, PartialEq, Eq)]
pub struct BufferWrite {
    pub buffer: Buffer,
    pub offset: u64,
    pub size: u64,
}

/// What one frame asks of the device: the globals to show, the two uniform
/// uploads, and the commands to submit.
#[derive(Debug, PartialEq, Eq)]
pub struct Frame {
    pub globals: Globals,
    pub uploads: [BufferWrite; 2],
    pub commands: Vec<Command>,
}

/// The state of the renderer that does not live on the device.
#[derive(Debug, PartialEq, Eq)]
pub struct Graphics {
    pub surface_config: SurfaceConfiguration,
    pub depth_texture: Texture,
    pub depth_texture_view: TextureView,
    /// The aspect ratio that the camera projects with.
    pub aspect_ratio: AspectRatio,
    pub metadata: Metadata,
    pub globals: Globals,
    pub render_pass: RenderPass,
    pub buffers: Buffers,
    pub bind_group_layouts_compute: BindGroupLayouts,
    pub bind_group_layouts_render: BindGroupLayouts,
    pub bind_groups_compute: BindGroups,
    pub bind_groups_render: BindGroups,
}

/// A pixel count raised to at least 1.
pub open spec fn at_least_one(pixels: u32) -> u32 {
    if pixels == 0 {
        1
    } else {
        pixels
    }
}

/// The surface configuration for a window of `size`: each dimension at
/// least 1.
pub open spec fn surface_config_of(size: PhysicalSize) -> SurfaceConfiguration {
    SurfaceConfiguration { width: at_least_one(size.width), height: at_least_one(size.height) }
}

/// The depth target for a surface: a single-sampled two-dimensional
/// 32-bit depth texture of the surface's size, used as a render attachment.
pub open spec fn depth_texture_of(surface_config: SurfaceConfiguration) -> Texture {
    Texture {
        size: Extent3d {
            width: surface_config.width,
            height: surface_config.height,
            depth_or_array_layers: 1,
        },
        mip_level_count: 1,
        sample_count: 1,
        dimension: TextureDimension::D2,
        format: TextureFormat::Depth32Float,
        usage: TextureUsages {
            copy_src: false,
            copy_dst: false,
            texture_binding: false,
            storage_binding: false,
            render_attachment: true,
        },
    }
}

/// The view of the whole depth target of a surface.
pub open spec fn depth_view_of(surface_config: SurfaceConfiguration) -> TextureView {
    TextureView {
        kind: TextureKind::Depth,
        width: surface_config.width,
        height: surface_config.height,
    }
}

/// The view of the whole image that a surface hands out.
pub open spec fn surface_view_of(surface_config: SurfaceConfiguration) -> TextureView {
    TextureView {
        kind: TextureKind::Surface,
        width: surface_config.width,
        height: surface_config.height,
    }
}

/// The time from `earlier` to `later`, zero where `earlier` is the later
/// one.
pub open spec fn elapsed(later: u64, earlier: u64) -> u64 {
    if later >= earlier {
        (later - earlier) as u64
    } else {
        0
    }
}

/// The two uniform uploads of a frame: the whole globals record, then the
/// whole view record, each to the start of its buffer.
pub open spec fn uniform_writes(buffers: Buffers) -> Seq<BufferWrite> {
    seq![
        BufferWrite { buffer: buffers.globals, offset: 0, size: GLOBALS_SIZE },
        BufferWrite { buffer: buffers.view, offset: 0, size: VIEW_SIZE },
    ]
}

/// The motion that the held keys `keys` ask for after `delta_time`
/// nanoseconds.
pub open spec fn motion_of(keys: Set<KeyCode>, delta_time: u64) -> Motion {
    Motion {
        delta_time,
        forward: keys.contains(KeyCode::KeyW),
        backward: keys.contains(KeyCode::KeyS),
        left: keys.contains(KeyCode::KeyA),
        right: keys.contains(KeyCode::KeyD),
        shift_multiplier: if keys.contains(KeyCode::ShiftLeft) {
            5
        } else {
            1
        },
    }
}

/// The held keys after a keyboard event: a named key enters the set when
/// pressed and leaves it when released; a key without a name changes
/// nothing.
pub open spec fn keys_after(keys: Set<KeyCode>, event: KeyEvent) -> Set<KeyCode> {
    match event.physical_key {
        PhysicalKey::Code(key_code) => match event.state {
            ElementState::Pressed => keys.insert(key_code),
            ElementState::Released => keys.remove(key_code),
        },
        PhysicalKey::Unidentified => keys,
    }
}

impl BufferWrite {
    /// Whether the write stays inside its buffer and the buffer may be
    /// overwritten from the host.
    pub open spec fn valid(&self) -> bool {
        &&& self.offset + self.size <= self.buffer.size
        &&& self.buffer.usage.copy_dst
    }
}

impl Motion {
    /// The held keys along the forward direction: 1, 0 or -1.
    pub open spec fn forward_axis(&self) -> int {
        (if self.forward { 1int } else { 0 }) - (if self.backward { 1int } else { 0 })
    }

    /// The held keys along the right direction: 1, 0 or -1.
    pub open spec fn right_axis(&self) -> int {
        (if self.right { 1int } else { 0 }) - (if self.left { 1int } else { 0 })
    }
}

impl SurfaceTexture {
    /// The view of the whole image.
    pub fn create_view(&self) -> (out: TextureView)
        ensures
            out == (TextureView {
                kind: TextureKind::Surface,
                width: self.width,
                height: self.height,
            }),
    {
        TextureView { kind: TextureKind::Surface, width: self.width, height: self.height }
    }
}

/// Describes the depth target for `surface_config` and the view of it.
pub fn create_depth_texture(surface_config: &SurfaceConfiguration) -> (out: (Texture, TextureView))
    ensures
        out.0 == depth_texture_of(*surface_config),
        out.1 == depth_view_of(*surface_config),
{
    let depth_texture = Texture {
        size: Extent3d {
            width: surface_config.width,
            height: surface_config.height,
            depth_or_array_layers: 1,
        },
        mip_level_count: 1,
        sample_count: 1,
        dimension: TextureDimension::D2,
        format: TextureFormat::Depth32Float,
        usage: TextureUsages {
            copy_src: false,
            copy_dst: false,
            texture_binding: false,
            storage_binding: false,
            render_attachment: true,
        },
    };

    let depth_texture_view = TextureView {
        kind: TextureKind::Depth,
        width: depth_texture.size.width,
        height: depth_texture.size.height,
    };
    (depth_texture, depth_texture_view)
}

/// The state of a renderer that starts at instant `now` in a window of
/// `size`: the surface at that size with each dimension at least 1, the
/// frame counter at 0, no key held, and every resource described for
/// `VERTEX_COUNT` vertices.
pub fn create_graphics(size: PhysicalSize, now: u64) -> (out: Graphics)
    ensures
        out.well_formed(),
        out.surface_config == surface_config_of(size),
        out.globals.time_passed == 0,
        out.globals.frame_time == 0,
        out.globals.frame == 0,
        out.metadata.start_instant == now,
        out.metadata.prev_frame_start_instant == now,
        out.metadata.keyboard_state@ == Set::<KeyCode>::empty(),
        out.buffers.holds(VERTEX_COUNT),
{
    let width = if size.width == 0 { 1 } else { size.width };
    let height = if size.height == 0 { 1 } else { size.height };
    let surface_config = SurfaceConfiguration { width, height };

    let (depth_texture, depth_texture_view) = create_depth_texture(&surface_config);

    let bind_group_layouts_compute = BindGroupLayouts::new(BindGroupUsage::Compute);
    let bind_group_layouts_render = BindGroupLayouts::new(BindGroupUsage::Render);
    let render_pass = RenderPass::new(&bind_group_layouts_render.as_slice());
    let buffers = Buffers::new(VERTEX_COUNT);
    let bind_groups_compute = BindGroups::new(&bind_group_layouts_compute, &buffers);
    let bind_groups_render = BindGroups::new(&bind_group_layouts_render, &buffers);

    Graphics {
        surface_config,
        depth_texture,
        depth_texture_view,
        aspect_ratio: AspectRatio { width, height },
        metadata: Metadata::new(now),
        globals: Globals { resolution: [width, height], time_passed: 0, frame_time: 0, frame: 0 },
        render_pass,
        buffers,
        bind_group_layouts_compute,
        bind_group_layouts_render,
        bind_groups_compute,
        bind_groups_render,
    }
}

impl Graphics {
    /// Whether the parts agree with each other: the surface is at least
    /// one pixel each way; the resolution, the aspect ratio and the depth
    /// target are those of the surface; the layouts are those of their
    /// contexts; both sets of bind groups bind the one pool of buffers; and
    /// the pipeline is laid out by the render context's declarations.
    pub open spec fn well_formed(&self) -> bool {
        &&& self.surface_config.width >= 1
        &&& self.surface_config.height >= 1
        &&& self.globals.resolution@ == seq![self.surface_config.width, self.surface_config.height]
        &&& self.aspect_ratio == (AspectRatio {
            width: self.surface_config.width,
            height: self.surface_config.height,
        })
        &&& self.depth_texture == depth_texture_of(self.surface_config)
        &&& self.depth_texture_view == depth_view_of(self.surface_config)
        &&& self.buffers.well_formed()
        &&& self.bind_group_layouts_compute.declares(BindGroupUsage::Compute)
        &&& self.bind_group_layouts_render.declares(BindGroupUsage::Render)
        &&& self.bind_groups_compute.binds(self.bind_group_layouts_compute, self.buffers)
        &&& self.bind_groups_render.binds(self.bind_group_layouts_render, self.buffers)
        &&& self.render_pass.pipeline.describes(self.bind_group_layouts_render.slot_order())
    }

    /// Whether `other` has the same resources: pipeline, buffers, layouts
    /// and bind groups.
    pub open spec fn same_resources(&self, other: &Graphics) -> bool {
        &&& self.render_pass == other.render_pass
        &&& self.buffers == other.buffers
        &&& self.bind_group_layouts_compute == other.bind_group_layouts_compute
        &&& self.bind_group_layouts_render == other.bind_group_layouts_render
        &&& self.bind_groups_compute == other.bind_groups_compute
        &&& self.bind_groups_render == other.bind_groups_render
    }

    /// Whether `other` has the same surface size and what follows from it:
    /// depth target and aspect ratio.
    pub open spec fn same_surface(&self, other: &Graphics) -> bool {
        &&& self.surface_config == other.surface_config
        &&& self.depth_texture == other.depth_texture
        &&& self.depth_texture_view == other.depth_texture_view
        &&& self.aspect_ratio == other.aspect_ratio
    }

    /// The commands of one frame: those of the compute stage, which are
    /// none, then one render pass on the surface image and the depth target
    /// with the render context's bind groups and the vertex buffer.
    pub open spec fn frame_commands(&self) -> Seq<Command> {
        pass_commands(
            surface_view_of(self.surface_config),
            self.depth_texture_view,
            self.bind_groups_render.slot_order(),
            self.buffers.vertices,
        )
    }

    /// Whether `after` is this renderer once it has taken the keyboard
    /// event `event`: the held keys follow the event, nothing else changes.
    pub open spec fn took_key(&self, after: &Graphics, event: KeyEvent) -> bool {
        &&& after.metadata.keyboard_state@ == keys_after(self.metadata.keyboard_state@, event)
        &&& after.metadata.start_instant == self.metadata.start_instant
        &&& after.metadata.prev_frame_start_instant == self.metadata.prev_frame_start_instant
        &&& after.globals == self.globals
        &&& after.same_surface(self)
        &&& after.same_resources(self)
    }

    /// Whether `after` is this renderer once it has taken the window size
    /// `new_size`: the surface, the resolution, the aspect ratio and the
    /// depth target all follow the size, each dimension raised to at least
    /// 1; input, times, frame counter and resources stay.
    pub open spec fn resized(&self, after: &Graphics, new_size: PhysicalSize) -> bool {
        &&& after.surface_config == surface_config_of(new_size)
        &&& after.aspect_ratio == (AspectRatio {
            width: at_least_one(new_size.width),
            height: at_least_one(new_size.height),
        })
        &&& after.globals == (Globals {
            resolution: [at_least_one(new_size.width), at_least_one(new_size.height)],
            ..self.globals
        })
        &&& after.depth_texture == depth_texture_of(surface_config_of(new_size))
        &&& after.depth_texture_view == depth_view_of(surface_config_of(new_size))
        &&& after.metadata == self.metadata
        &&& after.same_resources(self)
    }

    /// Whether `after` is this renderer once the frame `frame` has begun at
    /// instant `now`: the frame counter is one higher, the globals hold the
    /// time since the start and since the previous frame, `now` is the
    /// previous frame's start, and `frame` holds the new globals, the
    /// uniform uploads and the frame's commands. Surface, keys and
    /// resources stay.
    pub open spec fn drew(&self, after: &Graphics, now: u64, frame: &Frame) -> bool {
        &&& after.globals == (Globals {
            resolution: self.globals.resolution,
            time_passed: elapsed(now, self.metadata.start_instant),
            frame_time: elapsed(now, self.metadata.prev_frame_start_instant),
            frame: (self.globals.frame + 1) as u32,
        })
        &&& after.metadata.start_instant == self.metadata.start_instant
        &&& after.metadata.prev_frame_start_instant == now
        &&& after.metadata.keyboard_state == self.metadata.keyboard_state
        &&& after.same_surface(self)
        &&& after.same_resources(self)
        &&& frame.globals == after.globals
        &&& frame.uploads@ == uniform_writes(self.buffers)
        &&& frame.commands@ == self.frame_commands()
    }

    /// Takes a keyboard event into the set of held keys.
    pub fn handle_keyboard_input(&mut self, event: &KeyEvent)
        ensures
            old(self).took_key(final(self), *event),
            old(self).well_formed() ==> final(self).well_formed(),
    {
        let key_code = match event.physical_key {
            PhysicalKey::Code(key_code) => key_code,
            PhysicalKey::Unidentified => {
                return ;
            },
        };

        match event.state {
            ElementState::Pressed => {
                self.metadata.keyboard_state.insert(key_code);
            },
            ElementState::Released => {
                self.metadata.keyboard_state.remove(key_code);
            },
        }
    }

    /// Takes a new window size: the surface, the resolution, the aspect
    /// ratio and the depth target all follow it, each dimension raised to at
    /// least 1. Input, times, frame counter and resources stay.
    pub fn resize(&mut self, new_size: PhysicalSize)
        ensures
            old(self).resized(final(self), new_size),
            old(self).well_formed() ==> final(self).well_formed(),
    {
        self.surface_config.width = if new_size.width == 0 { 1 } else { new_size.width };
        self.surface_config.height = if new_size.height == 0 { 1 } else { new_size.height };

        self.aspect_ratio = AspectRatio {
            width: self.surface_config.width,
            height: self.surface_config.height,
        };

        self.globals.resolution = [self.surface_config.width, self.surface_config.height];

        let (depth_texture, depth_texture_view) = create_depth_texture(&self.surface_config);
        self.depth_texture = depth_texture;
        self.depth_texture_view = depth_texture_view;
    }

    /// The compute stage of a frame. It records nothing: the stage is a
    /// seam for later use.
    pub fn run_cs(&self, command_encoder: &mut CommandEncoder)
        ensures
            final(command_encoder)@ == old(command_encoder)@,
    {
    }

    /// The render stage of a frame: one render pass on `frame` and the
    /// depth target, with the render context's bind groups in slot order
    /// and the vertex buffer.
    pub fn run_rs(&self, command_encoder: &mut CommandEncoder, frame: &SurfaceTexture)
        ensures
            final(command_encoder)@ == old(command_encoder)@ + pass_commands(
                (TextureView {
                    kind: TextureKind::Surface,
                    width: frame.width,
                    height: frame.height,
                }),
                self.depth_texture_view,
                self.bind_groups_render.slot_order(),
                self.buffers.vertices,
            ),
    {
        self.render_pass.encode(
            command_encoder,
            &frame.create_view(),
            &self.depth_texture_view,
            &self.bind_groups_render.as_slice(),
            &self.buffers.vertices,
        );
    }

    /// The uploads that bring the uniforms on the device up to date: the
    /// globals record, then the view record.
    pub fn update_uniforms(&self) -> (out: [BufferWrite; 2])
        ensures
            out@ == uniform_writes(self.buffers),
    {
        [
            BufferWrite { buffer: self.buffers.globals, offset: 0, size: GLOBALS_SIZE },
            BufferWrite { buffer: self.buffers.view, offset: 0, size: VIEW_SIZE },
        ]
    }

    /// What the camera is to do at instant `now`: move for the time since
    /// the previous frame began, along the directions of the held movement
    /// keys, five times as fast while the modifier is held.
    pub fn update(&self, now: u64) -> (out: Motion)
        ensures
            out == motion_of(
                self.metadata.keyboard_state@,
                elapsed(now, self.metadata.prev_frame_start_instant),
            ),
    {
        let delta_time = if now >= self.metadata.prev_frame_start_instant {
            now - self.metadata.prev_frame_start_instant
        } else {
            0
        };
        let shift_multiplier: u32 = if self.metadata.keyboard_state.contains(KeyCode::ShiftLeft) {
            5
        } else {
            1
        };

        Motion {
            delta_time,
            forward: self.metadata.keyboard_state.contains(KeyCode::KeyW),
            backward: self.metadata.keyboard_state.contains(KeyCode::KeyS),
            left: self.metadata.keyboard_state.contains(KeyCode::KeyA),
            right: self.metadata.keyboard_state.contains(KeyCode::KeyD),
            shift_multiplier,
        }
    }

    /// Begins the frame at instant `now`: the frame counter goes up by one,
    /// the globals take the time since the start and since the previous
    /// frame, and `now` becomes the previous frame's start. Hands out what
    /// the device is to do for the frame.
    pub fn draw(&mut self, now: u64) -> (out: Frame)
        requires
            old(self).globals.frame < u32::MAX,
        ensures
            old(self).drew(final(self), now, &out),
            old(self).well_formed() ==> final(self).well_formed(),
    {
        self.globals.frame += 1;
        self.globals.time_passed = if now >= self.metadata.start_instant {
            now - self.metadata.start_instant
        } else {
            0
        };
        self.globals.frame_time = if now >= self.metadata.prev_frame_start_instant {
            now - self.metadata.prev_frame_start_instant
        } else {
            0
        };
        self.metadata.prev_frame_start_instant = now;

        let uploads = self.update_uniforms();

        let frame = SurfaceTexture {
            width: self.surface_config.width,
            height: self.surface_config.height,
        };

        let mut encoder = CommandEncoder::new();

        self.run_cs(&mut encoder);
        self.run_rs(&mut encoder, &frame);

        Frame { globals: self.globals, uploads, commands: encoder.finish() }
    }
}

/// In a well-formed renderer the uniform uploads stay inside their buffers,
/// and those buffers may be overwritten from the host.
pub proof fn lemma_uniform_writes_valid(graphics: Graphics)
    requires
        graphics.well_formed(),
    ensures
        uniform_writes(graphics.buffers)[0].valid(),
        uniform_writes(graphics.buffers)[1].valid(),
{
}

/// In a well-formed renderer the two attachments of the frame's render
/// pass have the same size, that of the surface.
pub proof fn lemma_attachments_match(graphics: Graphics)
    requires
        graphics.well_formed(),
    ensures
        graphics.depth_texture_view.width == surface_view_of(graphics.surface_config).width,
        graphics.depth_texture_view.height == surface_view_of(graphics.surface_config).height,
        graphics.depth_texture.size.width == graphics.surface_config.width,
        graphics.depth_texture.size.height == graphics.surface_config.height,
{
}

/// With none of the four movement keys held, an update asks for no
/// movement along either direction, whatever else is held.
pub proof fn lemma_still_without_movement_keys(keys: Set<KeyCode>, delta_time: u64)
    requires
        !keys.contains(KeyCode::KeyW),
        !keys.contains(KeyCode::KeyS),
        !keys.contains(KeyCode::KeyA),
        !keys.contains(KeyCode::KeyD),
    ensures
        motion_of(keys, delta_time).forward_axis() == 0,
        motion_of(keys, delta_time).right_axis() == 0,
{
}

/// With the forward key the only movement key held, an update asks for
/// movement along the forward direction alone, for the whole elapsed time,
/// at once the speed or, with the modifier held, at five times the speed.
pub proof fn lemma_forward_key_moves_forward(keys: Set<KeyCode>, delta_time: u64)
    requires
        keys.contains(KeyCode::KeyW),
        !keys.contains(KeyCode::KeyS),
        !keys.contains(KeyCode::KeyA),
        !keys.contains(KeyCode::KeyD),
    ensures
        motion_of(keys, delta_time).forward_axis() == 1,
        motion_of(keys, delta_time).right_axis() == 0,
        motion_of(keys, delta_time).delta_time == delta_time,
        motion_of(keys, delta_time).shift_multiplier == (if keys.contains(KeyCode::ShiftLeft) {
            5u32
        } else {
            1u32
        }),
{
}

/// Opposite movement keys held together cancel.
pub proof fn lemma_opposite_keys_cancel(keys: Set<KeyCode>, delta_time: u64)
    ensures
        keys.contains(KeyCode::KeyW) && keys.contains(KeyCode::KeyS) ==> motion_of(
            keys,
            delta_time,
        ).forward_axis() == 0,
        keys.contains(KeyCode::KeyA) && keys.contains(KeyCode::KeyD) ==> motion_of(
            keys,
            delta_time,
        ).right_axis() == 0,
{
}

/// An update at the instant at which the previous frame began, or before
/// it, moves for no time at all, whatever keys are held.
pub proof fn lemma_no_time_elapsed(graphics: Graphics, now: u64)
    requires
        now <= graphics.metadata.prev_frame_start_instant,
    ensures
        motion_of(
            graphics.metadata.keyboard_state@,
            elapsed(now, graphics.metadata.prev_frame_start_instant),
        ).delta_time == 0,
{
}

/// After a resize the resolution, the surface and the aspect ratio all
/// read the requested size with each dimension raised to at least 1: no
/// dimension is ever 0, and the ratio is that of the two raised numbers.
pub proof fn lemma_resize_clamps(before: Graphics, after: Graphics, new_size: PhysicalSize)
    requires
        before.resized(&after, new_size),
    ensures
        after.globals.resolution[0] == (if new_size.width >= 1 { new_size.width } else { 1u32 }),
        after.globals.resolution[1] == (if new_size.height >= 1 { new_size.height } else { 1u32 }),
        after.globals.resolution[0] >= 1,
        after.globals.resolution[1] >= 1,
        after.aspect_ratio.width == after.globals.resolution[0],
        after.aspect_ratio.height == after.globals.resolution[1],
        after.surface_config.width == after.globals.resolution[0],
        after.surface_config.height == after.globals.resolution[1],
        after.depth_texture.size.width == after.surface_config.width,
        after.depth_texture.size.height == after.surface_config.height,
{
}

} // verus!
