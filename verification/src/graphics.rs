pub mod mesh;
pub mod polygon;
pub mod program;
pub mod render;
pub mod shader_program;
pub mod shader;
pub mod texture;
pub mod transform;
pub mod vao;
