//! Textures: upload planning and texture-unit binding.
//!
//! Decoding an image file is the embedding's work; the library decides, from
//! the decoded pixel layout and the texture's role, exactly how the GPU must
//! store, filter and wrap it.

use vstd::prelude::*;

verus! {

/// The role of a texture, deciding its filtering.
#[allow(non_camel_case_types)]
#[derive(Clone, Copy, PartialEq, Eq, Structural, Debug)]
pub enum TextureType {
    SPRITE,
    TEXTURE,
}

/// Pixel layouts the engine accepts from the image decoder.
#[derive(Clone, Copy, PartialEq, Eq, Structural, Debug)]
pub enum PixelKind {
    Rgb8,
    Rgba8,
}

/// GPU-side storage formats.
#[derive(Clone, Copy, PartialEq, Eq, Structural, Debug)]
pub enum InternalFormat {
    Rgb8,
    Rgba8,
}

/// Texture filtering modes.
#[derive(Clone, Copy, PartialEq, Eq, Structural, Debug)]
pub enum Filter {
    Nearest,
    Linear,
}

/// Texture coordinate wrapping modes.
#[derive(Clone, Copy, PartialEq, Eq, Structural, Debug)]
pub enum Wrap {
    Repeat,
}

/// Everything the embedding needs to upload one decoded image as a GPU
/// texture.
#[derive(Clone, Copy, PartialEq, Eq, Structural, Debug)]
pub struct TextureUploadPlan {
    pub width: u32,
    pub height: u32,
    pub data_format: PixelKind,
    pub internal_format: InternalFormat,
    pub wrap_s: Wrap,
    pub wrap_t: Wrap,
    pub min_filter: Filter,
    pub mag_filter: Filter,
    pub generate_mipmap: bool,
}

/// The upload parameters for a decoded image: the storage format follows the
/// pixel layout, both axes repeat, sprites sample nearest while surface
/// textures sample linear, and a mipmap chain is generated.
pub open spec fn spec_upload_plan(
    kind: PixelKind,
    texture_type: TextureType,
    width: u32,
    height: u32,
) -> TextureUploadPlan {
    TextureUploadPlan {
        width,
        height,
        data_format: kind,
        internal_format: match kind {
            PixelKind::Rgb8 => InternalFormat::Rgb8,
            PixelKind::Rgba8 => InternalFormat::Rgba8,
        },
        wrap_s: Wrap::Repeat,
        wrap_t: Wrap::Repeat,
        min_filter: match texture_type {
            TextureType::SPRITE => Filter::Nearest,
            TextureType::TEXTURE => Filter::Linear,
        },
        mag_filter: match texture_type {
            TextureType::SPRITE => Filter::Nearest,
            TextureType::TEXTURE => Filter::Linear,
        },
        generate_mipmap: true,
    }
}

/// Decide how a decoded image is uploaded.
pub fn plan_upload(kind: PixelKind, texture_type: TextureType, width: u32, height: u32) -> (r:
    TextureUploadPlan)
    ensures
        r == spec_upload_plan(kind, texture_type, width, height),
{
    let filter = match texture_type {
        TextureType::SPRITE => Filter::Nearest,
        TextureType::TEXTURE => Filter::Linear,
    };
    TextureUploadPlan {
        width,
        height,
        data_format: kind,
        internal_format: match kind {
            PixelKind::Rgb8 => InternalFormat::Rgb8,
            PixelKind::Rgba8 => InternalFormat::Rgba8,
        },
        wrap_s: Wrap::Repeat,
        wrap_t: Wrap::Repeat,
        min_filter: filter,
        mag_filter: filter,
        generate_mipmap: true,
    }
}

/// A built GPU texture: owns its texture object handle, immutable after
/// creation.
#[derive(Clone, Copy, PartialEq, Eq, Structural, Debug)]
pub struct Texture {
    pub id: u32,
}

/// An order to bind one texture to one texture unit before drawing.
#[derive(Clone, Copy, PartialEq, Eq, Structural, Debug)]
pub struct TextureBind {
    pub unit: u32,
    pub texture: u32,
}

impl Texture {
    pub fn new(id: u32) -> (r: Self)
        ensures
            r == (Texture { id }),
    {
        Texture { id }
    }

    /// The binding of this texture to the given texture unit.
    pub fn bind(&self, unit: u32) -> (r: TextureBind)
        ensures
            r == (TextureBind { unit, texture: self.id }),
    {
        TextureBind { unit, texture: self.id }
    }
}

} // verus!
