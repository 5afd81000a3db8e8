use pocket_dimension::error::RegistryKey;
use pocket_dimension::error::RenderError;
use pocket_dimension::fixed::Vec2Fx;
use pocket_dimension::fixed::Vec3Fx;
use pocket_dimension::fixed::Vec4Fx;
use pocket_dimension::graphics::polygon::Polygon;
use pocket_dimension::graphics::program::ShaderProgram;
use pocket_dimension::graphics::program::Uniform;
use pocket_dimension::graphics::program::UniformName;
use pocket_dimension::graphics::render::Renderer;
use pocket_dimension::graphics::texture::Texture;
use pocket_dimension::graphics::transform::MatrixSpec;
use pocket_dimension::graphics::transform::Rotation;
use pocket_dimension::graphics::transform::Transform;
use pocket_dimension::registry::mesh_registry::build_mesh_registry;
use pocket_dimension::registry::mesh_registry::MeshRegistry;
use pocket_dimension::registry::shader_registry::ShaderProgramId;
use pocket_dimension::registry::shader_registry::ShaderRegistry;
use pocket_dimension::registry::texture_registry::TextureId;
use pocket_dimension::registry::texture_registry::TextureRegistry;

fn color_program(id: u32) -> ShaderProgram {
    ShaderProgram {
        id,
        uniforms: vec![UniformName::Model, UniformName::Projection, UniformName::Diffuse],
    }
}

fn texture_program(id: u32) -> ShaderProgram {
    ShaderProgram {
        id,
        uniforms: vec![
            UniformName::Model,
            UniformName::View,
            UniformName::Projection,
            UniformName::Texture1,
            UniformName::TexWidthScale,
        ],
    }
}

fn shader_registry() -> ShaderRegistry {
    let mut shaders = ShaderRegistry::new();
    shaders.register(ShaderProgramId::Ortho, color_program(1));
    shaders.register(ShaderProgramId::TextureOrtho, texture_program(2));
    shaders.register(ShaderProgramId::Perspective, color_program(3));
    shaders.register(ShaderProgramId::TexturePerspective, texture_program(4));
    shaders
}

fn texture_registry() -> TextureRegistry {
    let mut textures = TextureRegistry::new();
    textures.register(TextureId::BrickWall, Texture::new(21));
    textures.register(TextureId::Shotgun, Texture::new(22));
    textures
}

fn mesh_registry() -> MeshRegistry {
    build_mesh_registry(&shader_registry()).unwrap()
}

fn renderer() -> Renderer {
    Renderer::new(Vec2Fx { x: 1_920_000, y: 1_080_000 })
}

fn model_transform(call_uniform: &Uniform) -> Transform {
    match call_uniform {
        Uniform::Matrix4f(UniformName::Model, MatrixSpec::Model(t)) => *t,
        other => panic!("expected the model transform, got {:?}", other),
    }
}

#[test]
fn line_from_origin_to_ten_zero_has_length_ten_midpoint_five_zero_angle_zero() {
    let r = renderer();
    let call = r
        .draw_line(
            &mesh_registry(),
            &texture_registry(),
            Vec2Fx { x: 0, y: 0 },
            Vec2Fx { x: 10_000, y: 0 },
            2_000,
            Vec4Fx { x: 1000, y: 0, z: 0, w: 1000 },
        )
        .unwrap();
    let t = model_transform(&call.uniform_writes[0].uniform);
    // length = |end - start| = 10 units.
    assert_eq!(t.scale.x, 10_000);
    // midpoint = (5, 0).
    assert_eq!((t.translation.x, t.translation.y), (5_000, 0));
    // angle = atan2(0, 10) = 0.
    match t.rotation {
        Rotation::AboutZFromVector { dx, dy } => {
            assert_eq!((dx, dy), (10_000, 0));
            assert_eq!((dy as f32).atan2(dx as f32), 0.0);
        }
        other => panic!("expected a vector rotation, got {:?}", other),
    }
    assert!(t.rotation.is_zero_angle());
}

#[test]
fn diagonal_line_length_is_the_euclidean_distance() {
    let r = renderer();
    let call = r
        .draw_line(
            &mesh_registry(),
            &texture_registry(),
            Vec2Fx { x: 0, y: 0 },
            Vec2Fx { x: 3_000, y: 4_000 },
            1_000,
            Vec4Fx { x: 0, y: 0, z: 0, w: 1000 },
        )
        .unwrap();
    let t = model_transform(&call.uniform_writes[0].uniform);
    assert_eq!(t.scale.x, 5_000);
    assert!(!t.rotation.is_zero_angle());
}

#[test]
fn wall_of_twenty_by_ten_has_texture_x_scale_four() {
    let r = renderer();
    let camera = pocket_dimension::game::camera::Camera::new();
    let call = r
        .draw_wall(
            &mesh_registry(),
            &texture_registry(),
            camera.get_view_matrix(),
            Vec3Fx { x: 0, y: 0, z: -20_000 },
            Vec2Fx { x: 20_000, y: 10_000 },
            0,
            Vec4Fx { x: 1000, y: 1000, z: 1000, w: 1000 },
        )
        .unwrap();
    // x-scale = 20 / 10 * 2 = 4.0.
    let scale_write = &call.uniform_writes[4];
    assert_eq!(scale_write.uniform, Uniform::Float(UniformName::TexWidthScale, 4_000));
    assert_eq!(4_000 as f32 / 1000.0, 20.0_f32 / 10.0 * 2.0);
    // The wall binds the brick texture on unit 0.
    assert_eq!(call.texture_binds.len(), 1);
    assert_eq!((call.texture_binds[0].unit, call.texture_binds[0].texture), (0, 21));
}

#[test]
fn point_draw_assembles_the_exact_uniforms() {
    let r = renderer();
    let call = r
        .draw_point(
            &mesh_registry(),
            &texture_registry(),
            Vec2Fx { x: 100_000, y: 200_000 },
            5_000,
            Vec4Fx { x: 500, y: 1000, z: 0, w: 1000 },
        )
        .unwrap();
    assert_eq!(call.program, 1);
    assert_eq!(call.index_count, 6);
    assert!(call.texture_binds.is_empty());
    assert_eq!(call.uniform_writes.len(), 3);
    let t = model_transform(&call.uniform_writes[0].uniform);
    assert_eq!(t.scale, Vec3Fx { x: 5_000, y: 5_000, z: 5_000 });
    assert_eq!(t.rotation, Rotation::Identity);
    assert_eq!(t.translation, Vec3Fx { x: 100_000, y: 200_000, z: 0 });
    assert_eq!(
        call.uniform_writes[2].uniform,
        Uniform::Vec4(UniformName::Diffuse, Vec4Fx { x: 500, y: 1000, z: 0, w: 1000 })
    );
}

#[test]
fn rect_is_centered_from_its_bottom_left_corner() {
    let r = renderer();
    let call = r
        .draw_rect(
            &mesh_registry(),
            &texture_registry(),
            Vec2Fx { x: 10_000, y: 20_000 },
            Vec2Fx { x: 4_000, y: 6_000 },
            90_000,
            Vec4Fx { x: 0, y: 0, z: 1000, w: 1000 },
        )
        .unwrap();
    let t = model_transform(&call.uniform_writes[0].uniform);
    assert_eq!(t.translation, Vec3Fx { x: 12_000, y: 23_000, z: 0 });
    assert_eq!(t.rotation, Rotation::AboutZ { millideg: 90_000 });
    assert_eq!(t.scale, Vec3Fx { x: 4_000, y: 6_000, z: 1_000 });
}

#[test]
fn missing_mesh_key_fails_the_draw() {
    let r = renderer();
    let empty = MeshRegistry::new();
    let err = r
        .draw_point(
            &empty,
            &texture_registry(),
            Vec2Fx { x: 0, y: 0 },
            1_000,
            Vec4Fx { x: 0, y: 0, z: 0, w: 1000 },
        )
        .unwrap_err();
    assert_eq!(
        err,
        RenderError::RegistryKeyMissing(RegistryKey::Mesh(
            pocket_dimension::registry::mesh_registry::MeshId::Rect
        ))
    );
}

#[test]
fn missing_texture_fails_the_draw_naming_the_texture() {
    let r = renderer();
    let empty_textures = TextureRegistry::new();
    let err = r
        .draw_rect_textured(
            &mesh_registry(),
            &empty_textures,
            Vec2Fx { x: 0, y: 0 },
            Vec2Fx { x: 1_000, y: 1_000 },
            0,
        )
        .unwrap_err();
    assert_eq!(err, RenderError::RegistryKeyMissing(RegistryKey::Texture(TextureId::Shotgun)));
}

#[test]
fn undeclared_uniform_fails_the_draw_naming_the_uniform() {
    // An orthographic program that forgot to declare "diffuse".
    let mut shaders = ShaderRegistry::new();
    shaders.register(
        ShaderProgramId::Ortho,
        ShaderProgram { id: 1, uniforms: vec![UniformName::Model, UniformName::Projection] },
    );
    shaders.register(ShaderProgramId::TextureOrtho, texture_program(2));
    shaders.register(ShaderProgramId::Perspective, color_program(3));
    shaders.register(ShaderProgramId::TexturePerspective, texture_program(4));
    let meshes = build_mesh_registry(&shaders).unwrap();

    let r = renderer();
    let err = r
        .draw_point(
            &meshes,
            &texture_registry(),
            Vec2Fx { x: 0, y: 0 },
            1_000,
            Vec4Fx { x: 0, y: 0, z: 0, w: 1000 },
        )
        .unwrap_err();
    assert_eq!(err, RenderError::UniformNotFound(UniformName::Diffuse));
}

fn triangle() -> Vec<Vec3Fx> {
    vec![
        Vec3Fx { x: 0, y: 0, z: 0 },
        Vec3Fx { x: 1_000, y: 0, z: 0 },
        Vec3Fx { x: 0, y: 1_000, z: 0 },
    ]
}

#[test]
fn a_two_vertex_polygon_is_malformed_and_three_vertices_make_one_triangle() {
    let mut r = renderer();
    let shaders = shader_registry();
    let textures = texture_registry();

    let two = vec![Vec3Fx { x: 0, y: 0, z: 0 }, Vec3Fx { x: 1_000, y: 0, z: 0 }];
    let err = r
        .draw_polygon(
            &shaders,
            &textures,
            &two,
            Vec3Fx { x: 0, y: 0, z: 0 },
            0,
            1_000,
            Vec4Fx { x: 0, y: 0, z: 0, w: 1000 },
        )
        .unwrap_err();
    assert_eq!(err, RenderError::MalformedGeometry);

    let call = r
        .draw_polygon(
            &shaders,
            &textures,
            &triangle(),
            Vec3Fx { x: 0, y: 0, z: 0 },
            0,
            1_000,
            Vec4Fx { x: 0, y: 0, z: 0, w: 1000 },
        )
        .unwrap();
    // Exactly one triangle: three indices.
    assert_eq!(call.index_count, 3);
}

#[test]
fn an_n_gon_fans_into_n_minus_two_triangles() {
    let ortho = color_program(1);
    let pentagon = vec![
        Vec3Fx { x: 0, y: 0, z: 0 },
        Vec3Fx { x: 1_000, y: 0, z: 0 },
        Vec3Fx { x: 1_500, y: 800, z: 0 },
        Vec3Fx { x: 500, y: 1_500, z: 0 },
        Vec3Fx { x: -500, y: 800, z: 0 },
    ];
    let p = Polygon::new(&pentagon, ortho).unwrap();
    assert_eq!(p.mesh.indices.len(), 3 * (5 - 2));
    assert_eq!(p.mesh.indices, vec![0, 1, 2, 0, 2, 3, 0, 3, 4]);
    // Interleaved positions with zero texture coordinates, stride 5.
    assert_eq!(p.mesh.vertices.len(), 5 * 5);
    assert_eq!(&p.mesh.vertices[0..5], &[0, 0, 0, 0, 0]);
    assert_eq!(&p.mesh.vertices[5..10], &[1_000, 0, 0, 0, 0]);

    let err = Polygon::new(&pentagon[0..2].to_vec(), color_program(1)).unwrap_err();
    assert_eq!(err, RenderError::MalformedGeometry);
}

#[test]
fn polygons_with_equal_vertex_lists_are_equal() {
    let a = Polygon::new(&triangle(), color_program(1)).unwrap();
    let b = Polygon::new(&triangle(), color_program(8)).unwrap();
    assert_eq!(Polygon::get_vertex_list_hash(&triangle()), a.hash);
    assert!(a == b);
}

#[test]
fn polygons_differing_in_one_coordinate_are_not_equal() {
    let mut other = triangle();
    other[1].x += 1; // one fixed-point subunit, well past float epsilon
    let a = Polygon::new(&triangle(), color_program(1)).unwrap();
    let b = Polygon::new(&other, color_program(1)).unwrap();
    assert_ne!(
        Polygon::get_vertex_list_hash(&triangle()),
        Polygon::get_vertex_list_hash(&other)
    );
    assert!(a != b);
}

#[test]
fn the_polygon_cache_reuses_the_mesh_for_the_same_vertex_list() {
    let mut r = renderer();
    let shaders = shader_registry();
    let textures = texture_registry();
    let first = r
        .draw_polygon(
            &shaders,
            &textures,
            &triangle(),
            Vec3Fx { x: 0, y: 0, z: 0 },
            0,
            1_000,
            Vec4Fx { x: 0, y: 0, z: 0, w: 1000 },
        )
        .unwrap();
    let second = r
        .draw_polygon(
            &shaders,
            &textures,
            &triangle(),
            Vec3Fx { x: 9_000, y: 0, z: 0 },
            45_000,
            2_000,
            Vec4Fx { x: 1000, y: 0, z: 0, w: 1000 },
        )
        .unwrap();
    assert_eq!(first.index_count, second.index_count);
    assert_eq!(first.program, second.program);
}

#[test]
fn a_polygon_needs_the_orthographic_program() {
    let mut r = renderer();
    let no_shaders = ShaderRegistry::new();
    let err = r
        .draw_polygon(
            &no_shaders,
            &texture_registry(),
            &triangle(),
            Vec3Fx { x: 0, y: 0, z: 0 },
            0,
            1_000,
            Vec4Fx { x: 0, y: 0, z: 0, w: 1000 },
        )
        .unwrap_err();
    assert_eq!(err, RenderError::RegistryKeyMissing(RegistryKey::Shader(ShaderProgramId::Ortho)));
}
