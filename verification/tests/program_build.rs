use pocket_dimension::error::RenderError;
use pocket_dimension::graphics::program::BuildAction;
use pocket_dimension::graphics::program::GpuEvent;
use pocket_dimension::graphics::program::ProgramBuilder;
use pocket_dimension::graphics::program::ShaderProgram;
use pocket_dimension::graphics::program::Uniform;
use pocket_dimension::graphics::program::UniformName;
use pocket_dimension::graphics::shader::Shader;
use pocket_dimension::graphics::shader::ShaderType;
use pocket_dimension::graphics::shader_program::FragmentShader;
use pocket_dimension::graphics::shader_program::FragmentShaderId;
use pocket_dimension::graphics::shader_program::VertexShader;
use pocket_dimension::graphics::shader_program::VertexShaderId;
use pocket_dimension::graphics::texture::plan_upload;
use pocket_dimension::graphics::texture::Filter;
use pocket_dimension::graphics::texture::InternalFormat;
use pocket_dimension::graphics::texture::PixelKind;
use pocket_dimension::graphics::texture::Texture;
use pocket_dimension::graphics::texture::TextureType;
use pocket_dimension::graphics::texture::Wrap;
use pocket_dimension::graphics::vao::Vao;

fn builder() -> ProgramBuilder {
    ProgramBuilder::new(
        7,
        Shader::new(ShaderType::Vertex, String::from("vertex src")),
        Shader::new(ShaderType::Fragment, String::from("fragment src")),
        vec![UniformName::Model, UniformName::Projection],
    )
}

#[test]
fn build_happy_path_links_then_discards_the_stages() {
    let mut b = builder();

    match b.next_action() {
        BuildAction::Compile(req) => {
            assert!(matches!(req.stage, ShaderType::Vertex));
            assert_eq!(req.source, "vertex src");
        }
        other => panic!("expected a vertex compile, got {:?}", other),
    }
    b.step(GpuEvent::CompileOk { shader_id: 11 }).unwrap();

    match b.next_action() {
        BuildAction::Compile(req) => {
            assert!(matches!(req.stage, ShaderType::Fragment));
            assert_eq!(req.source, "fragment src");
        }
        other => panic!("expected a fragment compile, got {:?}", other),
    }
    b.step(GpuEvent::CompileOk { shader_id: 12 }).unwrap();

    match b.next_action() {
        BuildAction::AttachAndLink { program, vertex_id, fragment_id } => {
            assert_eq!((program, vertex_id, fragment_id), (7, 11, 12));
        }
        other => panic!("expected attach-and-link, got {:?}", other),
    }
    b.step(GpuEvent::LinkOk).unwrap();

    match b.next_action() {
        BuildAction::DetachAndDelete { program, vertex_id, fragment_id } => {
            assert_eq!((program, vertex_id, fragment_id), (7, 11, 12));
        }
        other => panic!("expected detach-and-delete, got {:?}", other),
    }
    b.step(GpuEvent::Released).unwrap();

    assert!(matches!(b.next_action(), BuildAction::Idle));
    let program = b.finish();
    assert_eq!(program.id, 7);
    assert_eq!(program.uniforms, vec![UniformName::Model, UniformName::Projection]);
}

#[test]
fn a_stage_compile_failure_surfaces_the_log_and_is_fatal() {
    let mut b = builder();
    let err = b.step(GpuEvent::CompileFail { log: String::from("bad vertex") }).unwrap_err();
    assert_eq!(err, RenderError::CompileError(String::from("bad vertex")));
    assert!(matches!(b.next_action(), BuildAction::Idle));
}

#[test]
fn a_link_failure_surfaces_the_log_and_is_fatal() {
    let mut b = builder();
    b.step(GpuEvent::CompileOk { shader_id: 11 }).unwrap();
    b.step(GpuEvent::CompileOk { shader_id: 12 }).unwrap();
    let err = b.step(GpuEvent::LinkFail { log: String::from("no link") }).unwrap_err();
    assert_eq!(err, RenderError::LinkError(String::from("no link")));
}

#[test]
fn uniform_setters_resolve_declared_names_only() {
    let p = ShaderProgram { id: 3, uniforms: vec![UniformName::Diffuse, UniformName::Model] };
    let write = p.set_uniform_int(UniformName::Diffuse, 5).unwrap();
    assert_eq!(write.program, 3);
    assert_eq!(write.uniform, Uniform::Int(UniformName::Diffuse, 5));

    let err = p.set_uniform_float(UniformName::TexWidthScale, 1000).unwrap_err();
    assert_eq!(err, RenderError::UniformNotFound(UniformName::TexWidthScale));
    assert!(p.check_uniform(UniformName::Model).is_ok());
    assert!(p.check_uniform(UniformName::View).is_err());
}

#[test]
fn uniform_names_match_the_glsl_spelling() {
    assert_eq!(UniformName::Model.as_str(), "model");
    assert_eq!(UniformName::View.as_str(), "view");
    assert_eq!(UniformName::Projection.as_str(), "projection");
    assert_eq!(UniformName::Diffuse.as_str(), "diffuse");
    assert_eq!(UniformName::Texture1.as_str(), "texture1");
    assert_eq!(UniformName::TexWidthScale.as_str(), "texWidthScale");
}

#[test]
fn embedded_basic_shaders_compile_as_their_stage() {
    let vs = VertexShader::new(VertexShaderId::Basic);
    let req = vs.compile();
    assert!(matches!(req.stage, ShaderType::Vertex));
    assert!(req.source.contains("gl_Position"));

    let fs = FragmentShader::new(FragmentShaderId::Basic);
    let req = fs.compile();
    assert!(matches!(req.stage, ShaderType::Fragment));
    assert!(req.source.contains("Color"));
}

#[test]
fn sprite_textures_sample_nearest_and_surface_textures_linear() {
    let sprite = plan_upload(PixelKind::Rgba8, TextureType::SPRITE, 64, 32);
    assert_eq!(sprite.internal_format, InternalFormat::Rgba8);
    assert_eq!(sprite.min_filter, Filter::Nearest);
    assert_eq!(sprite.mag_filter, Filter::Nearest);
    assert_eq!(sprite.wrap_s, Wrap::Repeat);
    assert_eq!(sprite.wrap_t, Wrap::Repeat);
    assert!(sprite.generate_mipmap);
    assert_eq!((sprite.width, sprite.height), (64, 32));

    let surface = plan_upload(PixelKind::Rgb8, TextureType::TEXTURE, 8, 8);
    assert_eq!(surface.internal_format, InternalFormat::Rgb8);
    assert_eq!(surface.min_filter, Filter::Linear);
    assert_eq!(surface.mag_filter, Filter::Linear);
}

#[test]
fn texture_binding_names_unit_and_texture() {
    let t = Texture::new(41);
    let bind = t.bind(2);
    assert_eq!(bind.unit, 2);
    assert_eq!(bind.texture, 41);
}

#[test]
fn vao_draws_its_three_triangle_vertices() {
    let data = Vao::vertex_data();
    assert_eq!(data, vec![-500, -500, 0, 500, -500, 0, 0, 500, 0]);
    let attrib = Vao::attrib();
    assert_eq!((attrib.index, attrib.components, attrib.stride, attrib.offset), (0, 3, 3, 0));
    let vao = Vao::new(9);
    let draw = vao.draw();
    assert_eq!(draw.vao, 9);
    assert_eq!(draw.vertex_count, 3);
}
