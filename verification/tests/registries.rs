use pocket_dimension::assets::shader_loader::load_shader_source;
use pocket_dimension::assets::shader_loader::SourceCatalog;
use pocket_dimension::error::RegistryKey;
use pocket_dimension::error::RenderError;
use pocket_dimension::graphics::program::ShaderProgram;
use pocket_dimension::graphics::program::UniformName;
use pocket_dimension::graphics::texture::Texture;
use pocket_dimension::registry::mesh_registry::build_mesh_registry;
use pocket_dimension::registry::mesh_registry::MeshId;
use pocket_dimension::registry::shader_registry::ShaderId;
use pocket_dimension::registry::shader_registry::ShaderProgramId;
use pocket_dimension::registry::shader_registry::ShaderRegistry;
use pocket_dimension::registry::texture_registry::TextureId;
use pocket_dimension::registry::texture_registry::TextureRegistry;

fn color_program(id: u32) -> ShaderProgram {
    ShaderProgram {
        id,
        uniforms: vec![UniformName::Model, UniformName::Projection, UniformName::Diffuse],
    }
}

fn texture_program(id: u32) -> ShaderProgram {
    ShaderProgram {
        id,
        uniforms: vec![
            UniformName::Model,
            UniformName::View,
            UniformName::Projection,
            UniformName::Texture1,
            UniformName::TexWidthScale,
        ],
    }
}

fn full_shader_registry() -> ShaderRegistry {
    let mut shaders = ShaderRegistry::new();
    shaders.register(ShaderProgramId::Ortho, color_program(1));
    shaders.register(ShaderProgramId::TextureOrtho, texture_program(2));
    shaders.register(ShaderProgramId::Perspective, color_program(3));
    shaders.register(ShaderProgramId::TexturePerspective, texture_program(4));
    shaders
}

#[test]
fn lookup_returns_the_registered_program() {
    let mut shaders = ShaderRegistry::new();
    assert!(shaders.get(ShaderProgramId::Ortho).is_none());
    shaders.register(ShaderProgramId::Ortho, color_program(7));
    let found = shaders.get(ShaderProgramId::Ortho).expect("registered key must resolve");
    assert_eq!(found.id, 7);
}

#[test]
fn second_build_of_the_same_id_is_not_observable() {
    let mut shaders = ShaderRegistry::new();
    shaders.register(ShaderProgramId::Ortho, color_program(7));
    // A second build of the same identifier must not replace the first.
    shaders.register(ShaderProgramId::Ortho, color_program(99));
    assert_eq!(shaders.get(ShaderProgramId::Ortho).unwrap().id, 7);
}

#[test]
fn registering_other_keys_keeps_existing_bindings() {
    let mut shaders = ShaderRegistry::new();
    shaders.register(ShaderProgramId::Ortho, color_program(7));
    shaders.register(ShaderProgramId::Perspective, color_program(8));
    shaders.register(ShaderProgramId::Basic, color_program(9));
    assert_eq!(shaders.get(ShaderProgramId::Ortho).unwrap().id, 7);
    assert_eq!(shaders.get(ShaderProgramId::Perspective).unwrap().id, 8);
}

#[test]
fn texture_registry_round_trip() {
    let mut textures = TextureRegistry::new();
    assert!(textures.get(TextureId::BrickWall).is_none());
    textures.register(TextureId::BrickWall, Texture::new(31));
    textures.register(TextureId::Shotgun, Texture::new(32));
    textures.register(TextureId::BrickWall, Texture::new(77));
    assert_eq!(textures.get(TextureId::BrickWall).unwrap().id, 31);
    assert_eq!(textures.get(TextureId::Shotgun).unwrap().id, 32);
}

#[test]
fn mesh_registry_build_uses_the_right_programs_and_textures() {
    let shaders = full_shader_registry();
    let meshes = build_mesh_registry(&shaders).expect("all four programs are present");

    let rect = meshes.get(MeshId::Rect).unwrap();
    assert_eq!(rect.program.id, 1);
    assert!(rect.textures.is_empty());
    assert_eq!(rect.indices, vec![0, 1, 2, 2, 3, 0]);
    assert_eq!(rect.vertices.len(), 20);

    let textured = meshes.get(MeshId::TexturedRect).unwrap();
    assert_eq!(textured.program.id, 2);
    assert_eq!(textured.textures, vec![(0, TextureId::Shotgun)]);

    let quad = meshes.get(MeshId::Quad).unwrap();
    assert_eq!(quad.program.id, 3);

    let wall = meshes.get(MeshId::Wall).unwrap();
    assert_eq!(wall.program.id, 4);
    assert_eq!(wall.textures, vec![(0, TextureId::BrickWall)]);
}

#[test]
fn mesh_registry_build_fails_on_the_first_missing_program() {
    let shaders = ShaderRegistry::new();
    let err = build_mesh_registry(&shaders).unwrap_err();
    assert_eq!(err, RenderError::RegistryKeyMissing(RegistryKey::Shader(ShaderProgramId::Ortho)));

    let mut partial = ShaderRegistry::new();
    partial.register(ShaderProgramId::Ortho, color_program(1));
    let err = build_mesh_registry(&partial).unwrap_err();
    assert_eq!(
        err,
        RenderError::RegistryKeyMissing(RegistryKey::Shader(ShaderProgramId::TextureOrtho))
    );
}

#[test]
fn quad_geometry_is_the_unit_quad() {
    let vbo = MeshId::Rect.get_vbo();
    assert_eq!(
        vbo,
        vec![
            -500, -500, 0, 0, 0, //
            500, -500, 0, 1000, 0, //
            500, 500, 0, 1000, 1000, //
            -500, 500, 0, 0, 1000,
        ]
    );
    assert_eq!(MeshId::Wall.get_ebo(), vec![0, 1, 2, 2, 3, 0]);
}

#[test]
fn shader_paths_resolve() {
    assert_eq!(ShaderId::VertexOrthographic.get_path(), "ortho/vertex.glsl");
    assert_eq!(ShaderId::TextureFragmentPerspective.get_path(), "texture_perspective/fragment.glsl");
    assert_eq!(TextureId::BrickWall.get_path(), "doom_wall.png");
    assert_eq!(TextureId::Shotgun.get_path(), "SHTFC0.png");
}

#[test]
fn missing_shader_source_is_fatal_at_lookup() {
    let mut catalog = SourceCatalog::new();
    catalog.register(ShaderId::VertexBasic, String::from("void main() {}"));
    let src = load_shader_source(&catalog, ShaderId::VertexBasic).unwrap();
    assert_eq!(src, "void main() {}");
    let err = load_shader_source(&catalog, ShaderId::FragmentBasic).unwrap_err();
    assert_eq!(err, RenderError::AssetMissing(ShaderId::FragmentBasic));
}
