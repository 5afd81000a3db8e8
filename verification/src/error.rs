//! The error taxonomy of the rendering core.
//!
//! Every resource-setup defect surfaces as a typed error that the embedding
//! propagates to a top-level handler; nothing here is meant to be recovered
//! from mid-frame.

use vstd::prelude::*;

use crate::graphics::program::UniformName;
use crate::registry::mesh_registry::MeshId;
use crate::registry::shader_registry::ShaderId;
use crate::registry::shader_registry::ShaderProgramId;
use crate::registry::texture_registry::TextureId;

verus! {

/// A key that a registry lookup failed to resolve.
#[derive(Clone, Copy, PartialEq, Eq, Structural, Debug)]
pub enum RegistryKey {
    Shader(ShaderProgramId),
    Mesh(MeshId),
    Texture(TextureId),
}

/// Everything that can go wrong while setting up or submitting GPU
/// resources.
#[derive(PartialEq, Eq, Debug)]
pub enum RenderError {
    /// A shader source was requested that the asset catalog does not hold.
    AssetMissing(ShaderId),
    /// A shader stage failed to compile; carries the GPU diagnostic log.
    CompileError(String),
    /// A program failed to link; carries the GPU diagnostic log.
    LinkError(String),
    /// A uniform name was used that the linked program does not declare.
    UniformNotFound(UniformName),
    /// A lookup of an unregistered logical identifier.
    RegistryKeyMissing(RegistryKey),
    /// Geometry that cannot form a polygon (fewer than three vertices).
    MalformedGeometry,
}

} // verus!
