pub mod shader_loader;
