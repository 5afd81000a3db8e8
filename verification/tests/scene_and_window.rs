use pocket_dimension::fixed::Vec2Fx;
use pocket_dimension::fixed::Vec3Fx;
use pocket_dimension::game::camera::Camera;
use pocket_dimension::game::camera::GroundDir;
use pocket_dimension::game::key_listener::KeyAction;
use pocket_dimension::game::key_listener::KeyListener;
use pocket_dimension::game::mouse_listener::MouseListener;
use pocket_dimension::game::scene::MainScene;
use pocket_dimension::game::scene::KEY_S;
use pocket_dimension::game::scene::KEY_W;
use pocket_dimension::game_window::fixed_update_count;
use pocket_dimension::game_window::handle_window_event;
use pocket_dimension::game_window::WindowEventKind;
use pocket_dimension::game_window::KEY_ESCAPE;
use pocket_dimension::graphics::program::ShaderProgram;
use pocket_dimension::graphics::program::UniformName;
use pocket_dimension::graphics::render::Renderer;
use pocket_dimension::graphics::texture::Texture;
use pocket_dimension::registry::mesh_registry::build_mesh_registry;
use pocket_dimension::registry::shader_registry::ShaderProgramId;
use pocket_dimension::registry::shader_registry::ShaderRegistry;
use pocket_dimension::registry::texture_registry::TextureId;
use pocket_dimension::registry::texture_registry::TextureRegistry;

#[test]
fn key_listener_records_presses_and_releases() {
    let mut keys = KeyListener::new();
    assert!(!keys.is_key_pressed(KEY_W));
    keys.handle_key_callback(KEY_W, KeyAction::Press);
    assert!(keys.is_key_pressed(KEY_W));
    keys.handle_key_callback(KEY_W, KeyAction::Repeat);
    assert!(keys.is_key_pressed(KEY_W));
    keys.handle_key_callback(KEY_W, KeyAction::Release);
    assert!(!keys.is_key_pressed(KEY_W));
}

#[test]
fn mouse_listener_tracks_the_delta_until_the_frame_ends() {
    let mut mouse = MouseListener::new();
    mouse.mouse_pos_callback(10_000, 4_000);
    assert_eq!(mouse.get_mouse_delta(), Vec2Fx { x: 10_000, y: 4_000 });
    mouse.end_frame();
    assert_eq!(mouse.get_mouse_delta(), Vec2Fx { x: 0, y: 0 });
    mouse.mouse_pos_callback(12_000, 3_000);
    assert_eq!(mouse.get_mouse_delta(), Vec2Fx { x: 2_000, y: -1_000 });
}

#[test]
fn escape_press_closes_the_window_without_touching_the_listeners() {
    let mut keys = KeyListener::new();
    let mut mouse = MouseListener::new();
    let close = handle_window_event(
        WindowEventKind::Key { key: KEY_ESCAPE, action: KeyAction::Press },
        &mut keys,
        &mut mouse,
    );
    assert!(close);
    assert!(!keys.is_key_pressed(KEY_ESCAPE));
}

#[test]
fn other_window_events_feed_the_listeners() {
    let mut keys = KeyListener::new();
    let mut mouse = MouseListener::new();
    assert!(!handle_window_event(
        WindowEventKind::Key { key: KEY_S, action: KeyAction::Press },
        &mut keys,
        &mut mouse,
    ));
    assert!(keys.is_key_pressed(KEY_S));
    assert!(!handle_window_event(
        WindowEventKind::CursorPos { x: 5_000, y: 6_000 },
        &mut keys,
        &mut mouse,
    ));
    assert_eq!(mouse.get_mouse_delta(), Vec2Fx { x: 5_000, y: 6_000 });
    assert!(!handle_window_event(WindowEventKind::Other, &mut keys, &mut mouse));
}

#[test]
fn fixed_update_count_accumulates_whole_frames_only() {
    assert_eq!(fixed_update_count(0), 0);
    assert_eq!(fixed_update_count(16_666), 0);
    assert_eq!(fixed_update_count(16_667), 1);
    assert_eq!(fixed_update_count(33_334), 2);
    assert_eq!(fixed_update_count(1_000_000), 60);
}

#[test]
fn update_fixed_walks_and_looks_and_consumes_the_delta() {
    let mut scene = MainScene::new();
    let mut camera = Camera::new();
    let mut keys = KeyListener::new();
    let mut mouse = MouseListener::new();

    keys.handle_key_callback(KEY_W, KeyAction::Press);
    mouse.mouse_pos_callback(2_000, -1_000);

    scene.update_fixed(&mut camera, &keys, &mut mouse, GroundDir { x: 1000, z: 0 });

    // W walks forward along the ground direction at speed 4.
    assert_eq!(camera.position, Vec3Fx { x: 4_000, y: 0, z: 0 });
    // Two pixels right: yaw += 2 * 573 millidegrees; starts at -90 degrees.
    assert_eq!(camera.yaw_millideg, -90_000 + 1_146);
    // One pixel down, inverted: pitch += 573 millidegrees.
    assert_eq!(camera.pitch_millideg, 573);
    // The delta was consumed.
    assert_eq!(mouse.get_mouse_delta(), Vec2Fx { x: 0, y: 0 });
}

#[test]
fn update_fixed_prefers_w_over_s() {
    let mut scene = MainScene::new();
    let mut camera = Camera::new();
    let mut keys = KeyListener::new();
    let mut mouse = MouseListener::new();
    keys.handle_key_callback(KEY_W, KeyAction::Press);
    keys.handle_key_callback(KEY_S, KeyAction::Press);
    scene.update_fixed(&mut camera, &keys, &mut mouse, GroundDir { x: 1000, z: 0 });
    assert_eq!(camera.position.x, 4_000);
}

fn scene_world() -> (Renderer, ShaderRegistry, TextureRegistry) {
    let mut shaders = ShaderRegistry::new();
    let color = |id: u32| ShaderProgram {
        id,
        uniforms: vec![UniformName::Model, UniformName::Projection, UniformName::Diffuse],
    };
    let textured = |id: u32| ShaderProgram {
        id,
        uniforms: vec![
            UniformName::Model,
            UniformName::View,
            UniformName::Projection,
            UniformName::Texture1,
            UniformName::TexWidthScale,
        ],
    };
    shaders.register(ShaderProgramId::Ortho, color(1));
    shaders.register(ShaderProgramId::TextureOrtho, textured(2));
    shaders.register(ShaderProgramId::Perspective, color(3));
    shaders.register(ShaderProgramId::TexturePerspective, textured(4));
    let mut textures = TextureRegistry::new();
    textures.register(TextureId::BrickWall, Texture::new(21));
    textures.register(TextureId::Shotgun, Texture::new(22));
    (Renderer::new(Vec2Fx { x: 1_920_000, y: 1_080_000 }), shaders, textures)
}

#[test]
fn the_scene_draws_the_wall_and_the_overlay() {
    let (renderer, shaders, textures) = scene_world();
    let meshes = build_mesh_registry(&shaders).unwrap();
    let scene = MainScene::new();
    let camera = Camera::new();
    let calls = scene.draw(&camera, &renderer, &meshes, &textures).unwrap();
    assert_eq!(calls.len(), 2);
    // The wall runs on the textured perspective program with the brick
    // texture; the overlay on the textured orthographic program.
    assert_eq!(calls[0].program, 4);
    assert_eq!((calls[0].texture_binds[0].unit, calls[0].texture_binds[0].texture), (0, 21));
    assert_eq!(calls[1].program, 2);
    assert_eq!((calls[1].texture_binds[0].unit, calls[1].texture_binds[0].texture), (0, 22));
}

#[test]
fn the_crosshair_is_two_lines_crossing_at_the_window_center() {
    let (renderer, shaders, textures) = scene_world();
    let meshes = build_mesh_registry(&shaders).unwrap();
    let scene = MainScene::new();
    let calls = scene.draw_crosshair(&renderer, &meshes, &textures).unwrap();
    assert_eq!(calls.len(), 2);
    assert_eq!(calls[0].program, 1);
    assert_eq!(calls[1].program, 1);
    assert_eq!(calls[0].index_count, 6);
}
