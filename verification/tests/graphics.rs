use render_core::graphics::buffers::Buffers;
use render_core::graphics::graphics::{
    create_depth_texture, create_graphics, BufferWrite, ElementState, Extent3d, KeyEvent,
    PhysicalKey, PhysicalSize, SurfaceConfiguration, SurfaceTexture, TextureDimension,
    TextureUsages, VERTEX_COUNT,
};
use render_core::graphics::render_pass::{
    Command, CommandEncoder, TextureFormat, TextureKind, TextureView,
};
use render_core::graphics::structures::{AspectRatio, KeyCode, KeySet, Metadata};

const SECOND: u64 = 1_000_000_000;

fn key(key_code: KeyCode, state: ElementState) -> KeyEvent {
    KeyEvent { physical_key: PhysicalKey::Code(key_code), state }
}

#[test]
fn key_set_follows_inserts_and_removes() {
    let mut keys = KeySet::new();
    assert!(!keys.contains(KeyCode::KeyW));
    keys.insert(KeyCode::KeyW);
    keys.insert(KeyCode::Other(0));
    keys.insert(KeyCode::Other(u32::MAX));
    assert!(keys.contains(KeyCode::KeyW));
    assert!(keys.contains(KeyCode::Other(0)));
    assert!(keys.contains(KeyCode::Other(u32::MAX)));
    assert!(!keys.contains(KeyCode::Other(1)));
    assert!(!keys.contains(KeyCode::Escape));
    keys.insert(KeyCode::KeyW);
    keys.remove(KeyCode::KeyW);
    assert!(!keys.contains(KeyCode::KeyW));
    keys.remove(KeyCode::KeyA);
    assert!(keys.contains(KeyCode::Other(0)));
}

#[test]
fn named_keys_and_numbered_keys_do_not_collide() {
    let named = [
        KeyCode::Escape,
        KeyCode::KeyW,
        KeyCode::KeyA,
        KeyCode::KeyS,
        KeyCode::KeyD,
        KeyCode::ShiftLeft,
    ];
    let mut keys = KeySet::new();
    for number in 0..8 {
        keys.insert(KeyCode::Other(number));
    }
    for key_code in named {
        assert!(!keys.contains(key_code));
    }
}

#[test]
fn metadata_starts_at_now_with_no_key_held() {
    let metadata = Metadata::new(42);
    assert_eq!(metadata.start_instant, 42);
    assert_eq!(metadata.prev_frame_start_instant, 42);
    assert_eq!(metadata.keyboard_state, KeySet::new());
}

#[test]
fn depth_texture_follows_the_surface() {
    let (texture, view) = create_depth_texture(&SurfaceConfiguration { width: 800, height: 600 });
    assert_eq!(texture.size, Extent3d { width: 800, height: 600, depth_or_array_layers: 1 });
    assert_eq!(texture.mip_level_count, 1);
    assert_eq!(texture.sample_count, 1);
    assert_eq!(texture.dimension, TextureDimension::D2);
    assert_eq!(texture.format, TextureFormat::Depth32Float);
    assert_eq!(
        texture.usage,
        TextureUsages {
            copy_src: false,
            copy_dst: false,
            texture_binding: false,
            storage_binding: false,
            render_attachment: true,
        }
    );
    assert_eq!(view, TextureView { kind: TextureKind::Depth, width: 800, height: 600 });
}

#[test]
fn surface_texture_view() {
    let frame = SurfaceTexture { width: 5, height: 9 };
    assert_eq!(
        frame.create_view(),
        TextureView { kind: TextureKind::Surface, width: 5, height: 9 }
    );
}

#[test]
fn new_graphics() {
    let gfx = create_graphics(PhysicalSize { width: 800, height: 600 }, 7);
    assert_eq!(gfx.surface_config, SurfaceConfiguration { width: 800, height: 600 });
    assert_eq!(gfx.aspect_ratio, AspectRatio { width: 800, height: 600 });
    assert_eq!(gfx.globals.resolution, [800, 600]);
    assert_eq!(gfx.globals.frame, 0);
    assert_eq!(gfx.globals.time_passed, 0);
    assert_eq!(gfx.globals.frame_time, 0);
    assert_eq!(gfx.metadata.start_instant, 7);
    assert_eq!(gfx.metadata.prev_frame_start_instant, 7);
    assert_eq!(gfx.depth_texture.size.width, 800);
    assert_eq!(gfx.depth_texture.size.height, 600);
    assert_eq!(VERTEX_COUNT, 3);
    assert_eq!(gfx.buffers, Buffers::new(3));
    assert_eq!(gfx.bind_groups_render.vertices.entry.resource.buffer, gfx.buffers.vertices);
    assert_eq!(gfx.bind_groups_compute.vertices.entry.resource.buffer, gfx.buffers.vertices);
    assert_eq!(
        gfx.render_pass.pipeline.bind_group_layouts,
        vec![
            gfx.bind_group_layouts_render.globals,
            gfx.bind_group_layouts_render.view,
            gfx.bind_group_layouts_render.vertices,
        ]
    );
}

#[test]
fn new_graphics_in_an_empty_window() {
    let gfx = create_graphics(PhysicalSize { width: 0, height: 0 }, 0);
    assert_eq!(gfx.surface_config, SurfaceConfiguration { width: 1, height: 1 });
    assert_eq!(gfx.globals.resolution, [1, 1]);
    assert_eq!(gfx.aspect_ratio, AspectRatio { width: 1, height: 1 });
}

#[test]
fn resize_to_nothing_reads_one_by_one() {
    let mut gfx = create_graphics(PhysicalSize { width: 800, height: 600 }, 0);
    assert_eq!(gfx.globals.resolution, [800, 600]);
    gfx.resize(PhysicalSize { width: 0, height: 0 });
    assert_eq!(gfx.globals.resolution, [1, 1]);
    assert_eq!(gfx.surface_config, SurfaceConfiguration { width: 1, height: 1 });
    assert_eq!(gfx.aspect_ratio, AspectRatio { width: 1, height: 1 });
    assert_eq!(gfx.depth_texture.size, Extent3d { width: 1, height: 1, depth_or_array_layers: 1 });
    assert_eq!(
        gfx.depth_texture_view,
        TextureView { kind: TextureKind::Depth, width: 1, height: 1 }
    );
}

#[test]
fn resize_raises_each_dimension_alone() {
    let mut gfx = create_graphics(PhysicalSize { width: 800, height: 600 }, 0);
    for (w, h) in [(0u32, 480u32), (640, 0), (1, 1), (1920, 1080), (u32::MAX, u32::MAX)] {
        gfx.resize(PhysicalSize { width: w, height: h });
        let (cw, ch) = (w.max(1), h.max(1));
        assert_eq!(gfx.globals.resolution, [cw, ch]);
        assert_eq!(gfx.aspect_ratio, AspectRatio { width: cw, height: ch });
        assert_eq!(gfx.surface_config, SurfaceConfiguration { width: cw, height: ch });
        assert_eq!(gfx.depth_texture.size.width, cw);
        assert_eq!(gfx.depth_texture.size.height, ch);
        let ratio = gfx.aspect_ratio.width as f32 / gfx.aspect_ratio.height as f32;
        assert_eq!(ratio, cw as f32 / ch as f32);
    }
}

#[test]
fn resize_keeps_input_times_and_resources() {
    let mut gfx = create_graphics(PhysicalSize { width: 800, height: 600 }, 3);
    gfx.handle_keyboard_input(&key(KeyCode::KeyW, ElementState::Pressed));
    gfx.draw(10);
    let globals = gfx.globals;
    let buffers = gfx.buffers;
    let groups = gfx.bind_groups_render;
    gfx.resize(PhysicalSize { width: 320, height: 200 });
    assert_eq!(gfx.globals.frame, globals.frame);
    assert_eq!(gfx.globals.time_passed, globals.time_passed);
    assert_eq!(gfx.globals.frame_time, globals.frame_time);
    assert_eq!(gfx.metadata.start_instant, 3);
    assert_eq!(gfx.metadata.prev_frame_start_instant, 10);
    assert!(gfx.metadata.keyboard_state.contains(KeyCode::KeyW));
    assert_eq!(gfx.buffers, buffers);
    assert_eq!(gfx.bind_groups_render, groups);
}

#[test]
fn keyboard_input_presses_and_releases() {
    let mut gfx = create_graphics(PhysicalSize { width: 800, height: 600 }, 0);
    gfx.handle_keyboard_input(&key(KeyCode::KeyA, ElementState::Pressed));
    gfx.handle_keyboard_input(&key(KeyCode::Other(12), ElementState::Pressed));
    assert!(gfx.metadata.keyboard_state.contains(KeyCode::KeyA));
    assert!(gfx.metadata.keyboard_state.contains(KeyCode::Other(12)));
    gfx.handle_keyboard_input(&key(KeyCode::KeyA, ElementState::Released));
    assert!(!gfx.metadata.keyboard_state.contains(KeyCode::KeyA));
    assert!(gfx.metadata.keyboard_state.contains(KeyCode::Other(12)));
    gfx.handle_keyboard_input(&key(KeyCode::KeyD, ElementState::Released));
    assert!(!gfx.metadata.keyboard_state.contains(KeyCode::KeyD));
}

#[test]
fn unidentified_keys_are_ignored() {
    let mut gfx = create_graphics(PhysicalSize { width: 800, height: 600 }, 0);
    gfx.handle_keyboard_input(&key(KeyCode::KeyS, ElementState::Pressed));
    let before = KeyEvent { physical_key: PhysicalKey::Unidentified, state: ElementState::Pressed };
    gfx.handle_keyboard_input(&before);
    let after = KeyEvent { physical_key: PhysicalKey::Unidentified, state: ElementState::Released };
    gfx.handle_keyboard_input(&after);
    let mut expected = KeySet::new();
    expected.insert(KeyCode::KeyS);
    assert_eq!(gfx.metadata.keyboard_state, expected);
}

#[test]
fn update_without_keys_asks_for_no_movement() {
    let gfx = create_graphics(PhysicalSize { width: 800, height: 600 }, 0);
    let motion = gfx.update(SECOND);
    assert_eq!(motion.delta_time, SECOND);
    assert!(!motion.forward && !motion.backward && !motion.left && !motion.right);
    assert_eq!(motion.shift_multiplier, 1);
}

#[test]
fn update_with_forward_key_held() {
    let mut gfx = create_graphics(PhysicalSize { width: 800, height: 600 }, 0);
    gfx.handle_keyboard_input(&key(KeyCode::KeyW, ElementState::Pressed));
    let motion = gfx.update(SECOND);
    assert_eq!(motion.delta_time, SECOND);
    assert!(motion.forward);
    assert!(!motion.backward && !motion.left && !motion.right);
    assert_eq!(motion.shift_multiplier, 1);
    gfx.handle_keyboard_input(&key(KeyCode::ShiftLeft, ElementState::Pressed));
    let boosted = gfx.update(2 * SECOND);
    assert_eq!(boosted.delta_time, 2 * SECOND);
    assert!(boosted.forward);
    assert_eq!(boosted.shift_multiplier, 5);
}

#[test]
fn update_reads_each_movement_key() {
    let mut gfx = create_graphics(PhysicalSize { width: 800, height: 600 }, 0);
    gfx.handle_keyboard_input(&key(KeyCode::KeyS, ElementState::Pressed));
    gfx.handle_keyboard_input(&key(KeyCode::KeyA, ElementState::Pressed));
    let motion = gfx.update(5);
    assert!(!motion.forward && motion.backward && motion.left && !motion.right);
    gfx.handle_keyboard_input(&key(KeyCode::KeyD, ElementState::Pressed));
    gfx.handle_keyboard_input(&key(KeyCode::KeyA, ElementState::Released));
    let motion = gfx.update(5);
    assert!(!motion.forward && motion.backward && !motion.left && motion.right);
}

#[test]
fn update_with_no_time_elapsed() {
    let mut gfx = create_graphics(PhysicalSize { width: 800, height: 600 }, 100);
    gfx.handle_keyboard_input(&key(KeyCode::KeyW, ElementState::Pressed));
    gfx.handle_keyboard_input(&key(KeyCode::ShiftLeft, ElementState::Pressed));
    assert_eq!(gfx.update(100).delta_time, 0);
    assert_eq!(gfx.update(99).delta_time, 0);
    assert_eq!(gfx.update(0).delta_time, 0);
    assert_eq!(gfx.update(101).delta_time, 1);
}

#[test]
fn update_measures_from_the_previous_frame() {
    let mut gfx = create_graphics(PhysicalSize { width: 800, height: 600 }, 100);
    assert_eq!(gfx.update(150).delta_time, 50);
    assert_eq!(gfx.update(170).delta_time, 70);
    gfx.draw(170);
    assert_eq!(gfx.update(200).delta_time, 30);
}

#[test]
fn draw_advances_counter_and_times() {
    let mut gfx = create_graphics(PhysicalSize { width: 800, height: 600 }, 100);
    let first = gfx.draw(130);
    assert_eq!(first.globals.frame, 1);
    assert_eq!(first.globals.time_passed, 30);
    assert_eq!(first.globals.frame_time, 30);
    assert_eq!(first.globals.resolution, [800, 600]);
    assert_eq!(gfx.globals, first.globals);
    assert_eq!(gfx.metadata.prev_frame_start_instant, 130);
    assert_eq!(gfx.metadata.start_instant, 100);
    let second = gfx.draw(175);
    assert_eq!(second.globals.frame, 2);
    assert_eq!(second.globals.time_passed, 75);
    assert_eq!(second.globals.frame_time, 45);
    let third = gfx.draw(50);
    assert_eq!(third.globals.frame, 3);
    assert_eq!(third.globals.time_passed, 0);
    assert_eq!(third.globals.frame_time, 0);
    assert_eq!(gfx.metadata.prev_frame_start_instant, 50);
}

#[test]
fn draw_reaches_the_last_frame_number() {
    let mut gfx = create_graphics(PhysicalSize { width: 800, height: 600 }, 0);
    gfx.globals.frame = u32::MAX - 1;
    assert_eq!(gfx.draw(1).globals.frame, u32::MAX);
}

#[test]
fn draw_uploads_both_uniforms() {
    let mut gfx = create_graphics(PhysicalSize { width: 800, height: 600 }, 0);
    let frame = gfx.draw(1);
    assert_eq!(
        frame.uploads,
        [
            BufferWrite { buffer: gfx.buffers.globals, offset: 0, size: 32 },
            BufferWrite { buffer: gfx.buffers.view, offset: 0, size: 272 },
        ]
    );
    assert_eq!(gfx.update_uniforms(), frame.uploads);
    for write in frame.uploads {
        assert!(write.offset + write.size <= write.buffer.size);
        assert!(write.buffer.usage.copy_dst);
    }
}

#[test]
fn draw_records_one_pass_on_matching_targets() {
    let mut gfx = create_graphics(PhysicalSize { width: 800, height: 600 }, 0);
    gfx.resize(PhysicalSize { width: 1024, height: 0 });
    let frame = gfx.draw(1);
    assert_eq!(frame.commands.len(), 8);
    match &frame.commands[0] {
        Command::BeginRenderPass { color_view, depth_view, .. } => {
            assert_eq!(
                *color_view,
                TextureView { kind: TextureKind::Surface, width: 1024, height: 1 }
            );
            assert_eq!(
                *depth_view,
                TextureView { kind: TextureKind::Depth, width: 1024, height: 1 }
            );
        }
        other => panic!("unexpected first command {:?}", other),
    }
    assert_eq!(frame.commands[1], Command::SetPipeline);
    assert_eq!(
        frame.commands[2],
        Command::SetBindGroup { index: 0, bind_group: gfx.bind_groups_render.globals }
    );
    assert_eq!(
        frame.commands[3],
        Command::SetBindGroup { index: 1, bind_group: gfx.bind_groups_render.bview }
    );
    assert_eq!(
        frame.commands[4],
        Command::SetBindGroup { index: 2, bind_group: gfx.bind_groups_render.vertices }
    );
    assert_eq!(
        frame.commands[5],
        Command::SetVertexBuffer { slot: 0, buffer: gfx.buffers.vertices }
    );
    assert_eq!(frame.commands[6], Command::Draw { vertices: 0..3, instances: 0..1 });
    assert_eq!(frame.commands[7], Command::EndRenderPass);
}

#[test]
fn compute_stage_records_nothing() {
    let gfx = create_graphics(PhysicalSize { width: 800, height: 600 }, 0);
    let mut encoder = CommandEncoder::new();
    gfx.run_cs(&mut encoder);
    assert!(encoder.commands.is_empty());
    gfx.run_rs(&mut encoder, &SurfaceTexture { width: 800, height: 600 });
    let recorded = encoder.commands.len();
    assert_eq!(recorded, 8);
    gfx.run_cs(&mut encoder);
    assert_eq!(encoder.commands.len(), recorded);
}
