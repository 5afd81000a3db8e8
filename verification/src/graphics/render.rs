//! The renderer: projection state, shape-drawing primitives, and the
//! polygon cache.
//!
//! Every primitive follows one template: build a model transform from the
//! requested position, size and rotation; pick the orthographic projection
//! for 2D shapes or the perspective projection for world geometry; assemble
//! the uniform list; resolve the backing mesh — a registry lookup for fixed
//! shapes, a cache-or-build for arbitrary polygons — and assemble the draw
//! call for the embedding to submit.

use vstd::prelude::*;

use crate::error::RegistryKey;
use crate::error::RenderError;
use crate::fixed::div_trunc;
use crate::fixed::isqrt_u64;
use crate::fixed::spec_div_trunc;
use crate::fixed::spec_isqrt;
use crate::fixed::Vec2Fx;
use crate::fixed::Vec3Fx;
use crate::fixed::Vec4Fx;
use crate::fixed::FX_ONE;
use crate::graphics::mesh::spec_mesh_draw_result;
use crate::graphics::mesh::DrawCall;
use crate::graphics::mesh::Mesh;
use crate::graphics::polygon::spec_fan_indices;
use crate::graphics::polygon::spec_polygon_vbo;
use crate::graphics::polygon::spec_vertex_hash;
use crate::graphics::polygon::Polygon;
use crate::graphics::program::Uniform;
use crate::graphics::program::UniformName;
use crate::graphics::transform::MatrixSpec;
use crate::graphics::transform::OrthoParams;
use crate::graphics::transform::PerspectiveParams;
use crate::graphics::transform::Rotation;
use crate::graphics::transform::Transform;
use crate::graphics::transform::ViewParams;
use crate::registry::assoc_map;
use crate::registry::lemma_assoc_map_domain;
use crate::registry::lemma_assoc_map_get;
use crate::registry::lemma_assoc_map_push;
use crate::registry::mesh_registry::MeshId;
use crate::registry::mesh_registry::MeshRegistry;
use crate::registry::shader_registry::ShaderProgramId;
use crate::registry::shader_registry::ShaderRegistry;
use crate::registry::texture_registry::TextureId;
use crate::registry::texture_registry::TextureRegistry;
use crate::registry::unique_keys;

verus! {

/// Bound on the coordinates and sizes the screen-space primitives accept,
/// in fixed-point subunits; it keeps every derived quantity inside `i64`.
pub const COORD_LIMIT: i64 = 1_000_000_000;

/// The orthographic projection of a window: pixel coordinates with the
/// origin at the bottom-left corner and a unit depth range.
pub open spec fn spec_ortho_projection(window_size: Vec2Fx) -> OrthoParams {
    OrthoParams {
        left: 0,
        right: window_size.x,
        bottom: 0,
        top: window_size.y,
        near: (-FX_ONE) as i64,
        far: FX_ONE,
    }
}

/// The perspective projection of a window: a 90 degree vertical field of
/// view at the window's aspect ratio, with the near plane at 0.1 and the
/// far plane at 1000 units.
pub open spec fn spec_perspective_projection(window_size: Vec2Fx) -> PerspectiveParams {
    PerspectiveParams {
        fov_y_millideg: 90000,
        aspect_width: window_size.x,
        aspect_height: window_size.y,
        near: 100,
        far: 1000000,
    }
}

/// The uniforms of a point: a uniform scale at the point's position under
/// the orthographic projection, flat-colored.
pub open spec fn spec_point_uniforms(
    ortho: OrthoParams,
    position: Vec2Fx,
    size: i64,
    color: Vec4Fx,
) -> Seq<Uniform> {
    seq![
        Uniform::Matrix4f(
            UniformName::Model,
            MatrixSpec::Model(
                Transform {
                    scale: Vec3Fx { x: size, y: size, z: size },
                    rotation: Rotation::Identity,
                    translation: Vec3Fx { x: position.x, y: position.y, z: 0 },
                },
            ),
        ),
        Uniform::Matrix4f(UniformName::Projection, MatrixSpec::Orthographic(ortho)),
        Uniform::Vec4(UniformName::Diffuse, color),
    ]
}

/// The model transform of a rectangle: `position` is its bottom-left
/// corner, so the unit quad is translated to the rectangle's center.
pub open spec fn spec_rect_transform(
    position: Vec2Fx,
    size: Vec2Fx,
    rotation_millideg: i64,
) -> Transform {
    Transform {
        scale: Vec3Fx { x: size.x, y: size.y, z: FX_ONE },
        rotation: Rotation::AboutZ { millideg: rotation_millideg },
        translation: Vec3Fx {
            x: (position.x + spec_div_trunc(size.x as int, 2)) as i64,
            y: (position.y + spec_div_trunc(size.y as int, 2)) as i64,
            z: 0,
        },
    }
}

/// The uniforms of a flat-colored rectangle.
pub open spec fn spec_rect_uniforms(
    ortho: OrthoParams,
    position: Vec2Fx,
    size: Vec2Fx,
    rotation_millideg: i64,
    color: Vec4Fx,
) -> Seq<Uniform> {
    seq![
        Uniform::Matrix4f(
            UniformName::Model,
            MatrixSpec::Model(spec_rect_transform(position, size, rotation_millideg)),
        ),
        Uniform::Matrix4f(UniformName::Projection, MatrixSpec::Orthographic(ortho)),
        Uniform::Vec4(UniformName::Diffuse, color),
    ]
}

/// The uniforms of a textured rectangle: the texture sits on unit 0 and
/// tiles once across the width.
pub open spec fn spec_rect_textured_uniforms(
    ortho: OrthoParams,
    position: Vec2Fx,
    size: Vec2Fx,
    rotation_millideg: i64,
) -> Seq<Uniform> {
    seq![
        Uniform::Matrix4f(
            UniformName::Model,
            MatrixSpec::Model(spec_rect_transform(position, size, rotation_millideg)),
        ),
        Uniform::Matrix4f(UniformName::Projection, MatrixSpec::Orthographic(ortho)),
        Uniform::Int(UniformName::Texture1, 0),
        Uniform::Float(UniformName::TexWidthScale, FX_ONE),
    ]
}

/// The length of the segment from `start` to `end`: the integer square
/// root of the squared distance.
pub open spec fn spec_line_length(start: Vec2Fx, end: Vec2Fx) -> int {
    let dx = end.x - start.x;
    let dy = end.y - start.y;
    spec_isqrt((dx * dx + dy * dy) as nat) as int
}

/// The model transform of a line: a thin rectangle of the segment's
/// length, rotated by the segment's angle `atan2(dy, dx)`, centered on the
/// segment's midpoint.
pub open spec fn spec_line_transform(start: Vec2Fx, end: Vec2Fx, thickness: i64) -> Transform {
    Transform {
        scale: Vec3Fx { x: spec_line_length(start, end) as i64, y: thickness, z: FX_ONE },
        rotation: Rotation::AboutZFromVector {
            dx: (end.x - start.x) as i64,
            dy: (end.y - start.y) as i64,
        },
        translation: Vec3Fx {
            x: spec_div_trunc(start.x + end.x, 2) as i64,
            y: spec_div_trunc(start.y + end.y, 2) as i64,
            z: 0,
        },
    }
}

/// The uniforms of a line.
pub open spec fn spec_line_uniforms(
    ortho: OrthoParams,
    start: Vec2Fx,
    end: Vec2Fx,
    thickness: i64,
    color: Vec4Fx,
) -> Seq<Uniform> {
    seq![
        Uniform::Matrix4f(
            UniformName::Model,
            MatrixSpec::Model(spec_line_transform(start, end, thickness)),
        ),
        Uniform::Matrix4f(UniformName::Projection, MatrixSpec::Orthographic(ortho)),
        Uniform::Vec4(UniformName::Diffuse, color),
    ]
}

/// The horizontal texture scale of a wall: `width / height * 2`, so a
/// repeating wall texture keeps a roughly square tile whatever the wall's
/// width.
pub open spec fn spec_wall_x_scale(size: Vec2Fx) -> int {
    spec_div_trunc(size.x * 2 * FX_ONE, size.y as int)
}

/// The uniforms of a textured wall: a model transform rotated about the y
/// axis, the caller's view transform, the perspective projection, the
/// texture on unit 0 and the width-proportional texture scale.
pub open spec fn spec_wall_uniforms(
    perspective: PerspectiveParams,
    view: ViewParams,
    position: Vec3Fx,
    size: Vec2Fx,
    rotation_y_millideg: i64,
) -> Seq<Uniform> {
    seq![
        Uniform::Matrix4f(
            UniformName::Model,
            MatrixSpec::Model(
                Transform {
                    scale: Vec3Fx { x: size.x, y: size.y, z: FX_ONE },
                    rotation: Rotation::AboutY { millideg: rotation_y_millideg },
                    translation: position,
                },
            ),
        ),
        Uniform::Matrix4f(UniformName::View, MatrixSpec::View(view)),
        Uniform::Matrix4f(UniformName::Projection, MatrixSpec::Perspective(perspective)),
        Uniform::Int(UniformName::Texture1, 0),
        Uniform::Float(UniformName::TexWidthScale, spec_wall_x_scale(size) as i64),
    ]
}

/// The uniforms of a cached polygon: a uniform scale and a rotation about
/// the z axis at the given position, flat-colored.
pub open spec fn spec_polygon_uniforms(
    ortho: OrthoParams,
    position: Vec3Fx,
    rotation_millideg: i64,
    scale: i64,
    color: Vec4Fx,
) -> Seq<Uniform> {
    seq![
        Uniform::Matrix4f(
            UniformName::Model,
            MatrixSpec::Model(
                Transform {
                    scale: Vec3Fx { x: scale, y: scale, z: scale },
                    rotation: Rotation::AboutZ { millideg: rotation_millideg },
                    translation: position,
                },
            ),
        ),
        Uniform::Matrix4f(UniformName::Projection, MatrixSpec::Orthographic(ortho)),
        Uniform::Vec4(UniformName::Diffuse, color),
    ]
}

/// Whether looking a fixed shape up in the mesh registry and drawing it
/// succeeds: the mesh id is registered, its textures resolve, and every
/// uniform override is declared.
pub open spec fn spec_registry_draw_ok(
    meshes: Map<MeshId, Mesh>,
    tex: Map<TextureId, crate::graphics::texture::Texture>,
    id: MeshId,
    us: Seq<Uniform>,
) -> bool {
    &&& meshes.contains_key(id)
    &&& crate::graphics::mesh::spec_textures_present(meshes[id].textures@, tex)
    &&& crate::graphics::mesh::spec_uniforms_known(meshes[id].program, us)
}

/// The error a registry draw reports: an unregistered mesh id, else the
/// mesh's first failure.
pub open spec fn spec_registry_draw_err(
    meshes: Map<MeshId, Mesh>,
    tex: Map<TextureId, crate::graphics::texture::Texture>,
    id: MeshId,
    us: Seq<Uniform>,
) -> RenderError {
    if !meshes.contains_key(id) {
        RenderError::RegistryKeyMissing(RegistryKey::Mesh(id))
    } else {
        crate::graphics::mesh::spec_draw_error(meshes[id], tex, us)
    }
}

/// Looking a fixed shape up in the mesh registry and drawing it: an
/// unregistered mesh id fails; otherwise the mesh decides.
pub open spec fn spec_registry_draw(
    meshes: Map<MeshId, Mesh>,
    tex: Map<TextureId, crate::graphics::texture::Texture>,
    id: MeshId,
    us: Seq<Uniform>,
    r: Result<DrawCall, RenderError>,
) -> bool {
    if !meshes.contains_key(id) {
        r == Err::<DrawCall, RenderError>(
            RenderError::RegistryKeyMissing(RegistryKey::Mesh(id)),
        )
    } else {
        spec_mesh_draw_result(meshes[id], tex, us, r)
    }
}


/// Draws a scene with a camera: window size, the two fixed projections,
/// and the cache of ad-hoc polygon meshes, keyed by content hash and never
/// evicted.
#[derive(Debug)]
pub struct Renderer {
    window_size: Vec2Fx,
    polygon_cache: Vec<(u64, Polygon)>,
    orthographic_projection: OrthoParams,
    perspective_projection: PerspectiveParams,
}

impl Renderer {
    /// Well-formedness: no content hash is cached twice.
    pub closed spec fn wf(&self) -> bool {
        unique_keys(self.polygon_cache@)
    }

    /// The window size the renderer was built for.
    pub closed spec fn spec_window_size(&self) -> Vec2Fx {
        self.window_size
    }

    /// The orthographic projection used by the 2D primitives.
    pub closed spec fn spec_ortho(&self) -> OrthoParams {
        self.orthographic_projection
    }

    /// The perspective projection used by the world primitives.
    pub closed spec fn spec_perspective(&self) -> PerspectiveParams {
        self.perspective_projection
    }

    /// The polygon cache as a map from content hash to cached polygon.
    pub closed spec fn spec_cache(&self) -> Map<u64, Polygon> {
        assoc_map(self.polygon_cache@)
    }

    /// Everything but the polygon cache is unchanged.
    pub open spec fn spec_same_but_cache(&self, other: &Renderer) -> bool {
        &&& self.spec_window_size() == other.spec_window_size()
        &&& self.spec_ortho() == other.spec_ortho()
        &&& self.spec_perspective() == other.spec_perspective()
    }

    /// A renderer for a window of the given size, with an empty polygon
    /// cache and both projections fixed from the window size.
    pub fn new(window_size: Vec2Fx) -> (r: Renderer)
        ensures
            r.wf(),
            r.spec_window_size() == window_size,
            r.spec_ortho() == spec_ortho_projection(window_size),
            r.spec_perspective() == spec_perspective_projection(window_size),
            r.spec_cache() == Map::<u64, Polygon>::empty(),
    {
        Renderer {
            window_size,
            polygon_cache: Vec::new(),
            orthographic_projection: OrthoParams {
                left: 0,
                right: window_size.x,
                bottom: 0,
                top: window_size.y,
                near: -FX_ONE,
                far: FX_ONE,
            },
            perspective_projection: PerspectiveParams {
                fov_y_millideg: 90000,
                aspect_width: window_size.x,
                aspect_height: window_size.y,
                near: 100,
                far: 1000000,
            },
        }
    }

    /// The window size the renderer was built for.
    pub fn window_size(&self) -> (r: Vec2Fx)
        ensures
            r == self.spec_window_size(),
    {
        self.window_size
    }

    /// The model transform shared by the rectangle primitives.
    fn rect_transform(&self, position: Vec2Fx, size: Vec2Fx, rotation_millideg: i64) -> (r:
        Transform)
        requires
            -COORD_LIMIT <= position.x <= COORD_LIMIT,
            -COORD_LIMIT <= position.y <= COORD_LIMIT,
            -COORD_LIMIT <= size.x <= COORD_LIMIT,
            -COORD_LIMIT <= size.y <= COORD_LIMIT,
        ensures
            r == spec_rect_transform(position, size, rotation_millideg),
    {
        let width_offset = div_trunc(size.x, 2);
        let height_offset = div_trunc(size.y, 2);
        Transform {
            scale: Vec3Fx { x: size.x, y: size.y, z: FX_ONE },
            rotation: Rotation::AboutZ { millideg: rotation_millideg },
            translation: Vec3Fx {
                x: position.x + width_offset,
                y: position.y + height_offset,
                z: 0,
            },
        }
    }

    /// Draw a square point of the given size at a window position.
    pub fn draw_point(
        &self,
        meshes: &MeshRegistry,
        textures: &TextureRegistry,
        position: Vec2Fx,
        size: i64,
        color: Vec4Fx,
    ) -> (r: Result<DrawCall, RenderError>)
        requires
            meshes.wf(),
            textures.wf(),
        ensures
            spec_registry_draw(
                meshes@,
                textures@,
                MeshId::Rect,
                spec_point_uniforms(self.spec_ortho(), position, size, color),
                r,
            ),
    {
        let mut uniforms: Vec<Uniform> = Vec::new();
        uniforms.push(
            Uniform::Matrix4f(
                UniformName::Model,
                MatrixSpec::Model(
                    Transform {
                        scale: Vec3Fx { x: size, y: size, z: size },
                        rotation: Rotation::Identity,
                        translation: Vec3Fx { x: position.x, y: position.y, z: 0 },
                    },
                ),
            ),
        );
        uniforms.push(
            Uniform::Matrix4f(
                UniformName::Projection,
                MatrixSpec::Orthographic(self.orthographic_projection),
            ),
        );
        uniforms.push(Uniform::Vec4(UniformName::Diffuse, color));
        proof {
            assert(uniforms@ =~= spec_point_uniforms(self.spec_ortho(), position, size, color));
        }
        match meshes.get(MeshId::Rect) {
            Some(mesh) => mesh.draw(textures, &uniforms),
            None => Err(RenderError::RegistryKeyMissing(RegistryKey::Mesh(MeshId::Rect))),
        }
    }

    /// Draw a flat-colored rectangle; `position` is its bottom-left corner.
    pub fn draw_rect(
        &self,
        meshes: &MeshRegistry,
        textures: &TextureRegistry,
        position: Vec2Fx,
        size: Vec2Fx,
        rotation_millideg: i64,
        color: Vec4Fx,
    ) -> (r: Result<DrawCall, RenderError>)
        requires
            meshes.wf(),
            textures.wf(),
            -COORD_LIMIT <= position.x <= COORD_LIMIT,
            -COORD_LIMIT <= position.y <= COORD_LIMIT,
            -COORD_LIMIT <= size.x <= COORD_LIMIT,
            -COORD_LIMIT <= size.y <= COORD_LIMIT,
        ensures
            spec_registry_draw(
                meshes@,
                textures@,
                MeshId::Rect,
                spec_rect_uniforms(
                    self.spec_ortho(),
                    position,
                    size,
                    rotation_millideg,
                    color,
                ),
                r,
            ),
    {
        let transform = self.rect_transform(position, size, rotation_millideg);
        let mut uniforms: Vec<Uniform> = Vec::new();
        uniforms.push(Uniform::Matrix4f(UniformName::Model, MatrixSpec::Model(transform)));
        uniforms.push(
            Uniform::Matrix4f(
                UniformName::Projection,
                MatrixSpec::Orthographic(self.orthographic_projection),
            ),
        );
        uniforms.push(Uniform::Vec4(UniformName::Diffuse, color));
        proof {
            assert(uniforms@ =~= spec_rect_uniforms(
                self.spec_ortho(),
                position,
                size,
                rotation_millideg,
                color,
            ));
        }
        match meshes.get(MeshId::Rect) {
            Some(mesh) => mesh.draw(textures, &uniforms),
            None => Err(RenderError::RegistryKeyMissing(RegistryKey::Mesh(MeshId::Rect))),
        }
    }

    /// Draw the textured rectangle; `position` is its bottom-left corner.
    pub fn draw_rect_textured(
        &self,
        meshes: &MeshRegistry,
        textures: &TextureRegistry,
        position: Vec2Fx,
        size: Vec2Fx,
        rotation_millideg: i64,
    ) -> (r: Result<DrawCall, RenderError>)
        requires
            meshes.wf(),
            textures.wf(),
            -COORD_LIMIT <= position.x <= COORD_LIMIT,
            -COORD_LIMIT <= position.y <= COORD_LIMIT,
            -COORD_LIMIT <= size.x <= COORD_LIMIT,
            -COORD_LIMIT <= size.y <= COORD_LIMIT,
        ensures
            spec_registry_draw(
                meshes@,
                textures@,
                MeshId::TexturedRect,
                spec_rect_textured_uniforms(self.spec_ortho(), position, size, rotation_millideg),
                r,
            ),
    {
        let transform = self.rect_transform(position, size, rotation_millideg);
        let mut uniforms: Vec<Uniform> = Vec::new();
        uniforms.push(Uniform::Matrix4f(UniformName::Model, MatrixSpec::Model(transform)));
        uniforms.push(
            Uniform::Matrix4f(
                UniformName::Projection,
                MatrixSpec::Orthographic(self.orthographic_projection),
            ),
        );
        uniforms.push(Uniform::Int(UniformName::Texture1, 0));
        uniforms.push(Uniform::Float(UniformName::TexWidthScale, FX_ONE));
        proof {
            assert(uniforms@ =~= spec_rect_textured_uniforms(
                self.spec_ortho(),
                position,
                size,
                rotation_millideg,
            ));
        }
        match meshes.get(MeshId::TexturedRect) {
            Some(mesh) => mesh.draw(textures, &uniforms),
            None => Err(
                RenderError::RegistryKeyMissing(RegistryKey::Mesh(MeshId::TexturedRect)),
            ),
        }
    }

    /// Draw a line as a thin rotated rectangle: its length is the distance
    /// between the endpoints, its rotation the segment's angle, its center
    /// the segment's midpoint.
    pub fn draw_line(
        &self,
        meshes: &MeshRegistry,
        textures: &TextureRegistry,
        start: Vec2Fx,
        end: Vec2Fx,
        thickness: i64,
        color: Vec4Fx,
    ) -> (r: Result<DrawCall, RenderError>)
        requires
            meshes.wf(),
            textures.wf(),
            -COORD_LIMIT <= start.x <= COORD_LIMIT,
            -COORD_LIMIT <= start.y <= COORD_LIMIT,
            -COORD_LIMIT <= end.x <= COORD_LIMIT,
            -COORD_LIMIT <= end.y <= COORD_LIMIT,
        ensures
            spec_registry_draw(
                meshes@,
                textures@,
                MeshId::Rect,
                spec_line_uniforms(self.spec_ortho(), start, end, thickness, color),
                r,
            ),
    {
        let dx: i64 = end.x - start.x;
        let dy: i64 = end.y - start.y;
        proof {
            assert((dx as int) * (dx as int) + (dy as int) * (dy as int)
                <= 8000000000000000000) by (nonlinear_arith)
                requires
                    -2000000000 <= dx <= 2000000000,
                    -2000000000 <= dy <= 2000000000,
            ;
            assert((dx as int) * (dx as int) >= 0) by (nonlinear_arith);
            assert((dy as int) * (dy as int) >= 0) by (nonlinear_arith);
        }
        let d2: u64 = ((dx as i128) * (dx as i128) + (dy as i128) * (dy as i128)) as u64;
        let length_u = isqrt_u64(d2);
        proof {
            assert((length_u as nat) < 4000000000) by (nonlinear_arith)
                requires
                    (length_u as nat) * (length_u as nat) <= 8000000000000000000,
            ;
        }
        let length: i64 = length_u as i64;
        let mid_x = div_trunc(start.x + end.x, 2);
        let mid_y = div_trunc(start.y + end.y, 2);
        let transform = Transform {
            scale: Vec3Fx { x: length, y: thickness, z: FX_ONE },
            rotation: Rotation::AboutZFromVector { dx, dy },
            translation: Vec3Fx { x: mid_x, y: mid_y, z: 0 },
        };
        let mut uniforms: Vec<Uniform> = Vec::new();
        uniforms.push(Uniform::Matrix4f(UniformName::Model, MatrixSpec::Model(transform)));
        uniforms.push(
            Uniform::Matrix4f(
                UniformName::Projection,
                MatrixSpec::Orthographic(self.orthographic_projection),
            ),
        );
        uniforms.push(Uniform::Vec4(UniformName::Diffuse, color));
        proof {
            assert(transform == spec_line_transform(start, end, thickness));
            assert(uniforms@ =~= spec_line_uniforms(
                self.spec_ortho(),
                start,
                end,
                thickness,
                color,
            ));
        }
        match meshes.get(MeshId::Rect) {
            Some(mesh) => mesh.draw(textures, &uniforms),
            None => Err(RenderError::RegistryKeyMissing(RegistryKey::Mesh(MeshId::Rect))),
        }
    }

    /// Draw a textured wall in the world: a quad under the caller's view
    /// transform and the perspective projection, with the horizontal
    /// texture scale `width / height * 2`.
    #[allow(unused_variables)]
    pub fn draw_wall(
        &self,
        meshes: &MeshRegistry,
        textures: &TextureRegistry,
        view_matrix: ViewParams,
        position: Vec3Fx,
        size: Vec2Fx,
        rotation_y_millideg: i64,
        color: Vec4Fx,
    ) -> (r: Result<DrawCall, RenderError>)
        requires
            meshes.wf(),
            textures.wf(),
            -COORD_LIMIT <= size.x <= COORD_LIMIT,
            0 < size.y <= COORD_LIMIT,
        ensures
            spec_registry_draw(
                meshes@,
                textures@,
                MeshId::Wall,
                spec_wall_uniforms(
                    self.spec_perspective(),
                    view_matrix,
                    position,
                    size,
                    rotation_y_millideg,
                ),
                r,
            ),
    {
        let x_scale = div_trunc(size.x * 2 * FX_ONE, size.y);
        let transform = Transform {
            scale: Vec3Fx { x: size.x, y: size.y, z: FX_ONE },
            rotation: Rotation::AboutY { millideg: rotation_y_millideg },
            translation: position,
        };
        let mut uniforms: Vec<Uniform> = Vec::new();
        uniforms.push(Uniform::Matrix4f(UniformName::Model, MatrixSpec::Model(transform)));
        uniforms.push(Uniform::Matrix4f(UniformName::View, MatrixSpec::View(view_matrix)));
        uniforms.push(
            Uniform::Matrix4f(
                UniformName::Projection,
                MatrixSpec::Perspective(self.perspective_projection),
            ),
        );
        uniforms.push(Uniform::Int(UniformName::Texture1, 0));
        uniforms.push(Uniform::Float(UniformName::TexWidthScale, x_scale));
        proof {
            assert(uniforms@ =~= spec_wall_uniforms(
                self.spec_perspective(),
                view_matrix,
                position,
                size,
                rotation_y_millideg,
            ));
        }
        match meshes.get(MeshId::Wall) {
            Some(mesh) => mesh.draw(textures, &uniforms),
            None => Err(RenderError::RegistryKeyMissing(RegistryKey::Mesh(MeshId::Wall))),
        }
    }

    /// Resolve the polygon for a vertex loop: return the index of the
    /// cached polygon with the loop's content hash, building and caching it
    /// first if it is new. The cache grows for the renderer's lifetime and
    /// is never evicted.
    fn get_polygon_from_cache_or_store(
        &mut self,
        shaders: &ShaderRegistry,
        vertices: &Vec<Vec3Fx>,
    ) -> (r: Result<usize, RenderError>)
        requires
            old(self).wf(),
            shaders.wf(),
            vertices@.len() <= 0xFFFF_FFFF,
        ensures
            final(self).wf(),
            final(self).spec_same_but_cache(old(self)),
            ({
                let h = spec_vertex_hash(vertices@);
                let m0 = old(self).spec_cache();
                if m0.contains_key(h) {
                    &&& final(self).spec_cache() == m0
                    &&& r matches Ok(i) && i < final(self).polygon_cache@.len()
                        && final(self).polygon_cache@[i as int].0 == h
                        && final(self).polygon_cache@[i as int].1 == m0[h]
                } else if !shaders@.contains_key(ShaderProgramId::Ortho) {
                    &&& final(self).spec_cache() == m0
                    &&& r == Err::<usize, RenderError>(
                        RenderError::RegistryKeyMissing(
                            RegistryKey::Shader(ShaderProgramId::Ortho),
                        ),
                    )
                } else if vertices@.len() < 3 {
                    &&& final(self).spec_cache() == m0
                    &&& r == Err::<usize, RenderError>(RenderError::MalformedGeometry)
                } else {
                    &&& final(self).spec_cache().contains_key(h)
                    &&& ({
                        let p = final(self).spec_cache()[h];
                        &&& final(self).spec_cache() == m0.insert(h, p)
                        &&& p.spec_hash() == h
                        &&& p.mesh.vertices@ == spec_polygon_vbo(vertices@)
                        &&& p.mesh.indices@ == spec_fan_indices(vertices@.len() as int)
                        &&& p.mesh.program.id == shaders@[ShaderProgramId::Ortho].id
                        &&& p.mesh.program.uniforms@
                            == shaders@[ShaderProgramId::Ortho].uniforms@
                        &&& p.mesh.textures@ == Seq::<(u32, TextureId)>::empty()
                    })
                    &&& r matches Ok(i) && i < final(self).polygon_cache@.len()
                        && final(self).polygon_cache@[i as int].0 == h
                        && final(self).polygon_cache@[i as int].1 == final(self).spec_cache()[h]
                }
            }),
    {
        let hash = Polygon::get_vertex_list_hash(vertices);
        let mut i: usize = 0;
        while i < self.polygon_cache.len()
            invariant
                *self == *old(self),
                old(self).wf(),
                hash == spec_vertex_hash(vertices@),
                i <= self.polygon_cache@.len(),
                forall|j: int| 0 <= j < i ==> self.polygon_cache@[j].0 != hash,
            decreases self.polygon_cache@.len() - i,
        {
            if self.polygon_cache[i].0 == hash {
                proof {
                    lemma_assoc_map_domain(self.polygon_cache@, hash);
                    lemma_assoc_map_get(self.polygon_cache@, i as int);
                }
                return Ok(i);
            }
            i += 1;
        }
        proof {
            lemma_assoc_map_domain(self.polygon_cache@, hash);
        }
        let ortho_program = match shaders.get(ShaderProgramId::Ortho) {
            Some(p) => p,
            None => {
                return Err(
                    RenderError::RegistryKeyMissing(RegistryKey::Shader(ShaderProgramId::Ortho)),
                );
            },
        };
        let polygon = match Polygon::new(vertices, ortho_program.duplicate()) {
            Ok(p) => p,
            Err(e) => {
                return Err(e);
            },
        };
        proof {
            lemma_assoc_map_push(self.polygon_cache@, hash, polygon);
        }
        let index = self.polygon_cache.len();
        self.polygon_cache.push((hash, polygon));
        proof {
            lemma_assoc_map_get(self.polygon_cache@, index as int);
        }
        Ok(index)
    }

    /// Draw an ad-hoc convex polygon: resolve it from the cache by content
    /// hash — building it with the orthographic program and caching it if
    /// it is new — and draw it flat-colored at the given position, rotation
    /// and uniform scale.
    pub fn draw_polygon(
        &mut self,
        shaders: &ShaderRegistry,
        textures: &TextureRegistry,
        vertices: &Vec<Vec3Fx>,
        position: Vec3Fx,
        rotation_millideg: i64,
        scale: i64,
        color: Vec4Fx,
    ) -> (r: Result<DrawCall, RenderError>)
        requires
            old(self).wf(),
            shaders.wf(),
            textures.wf(),
            vertices@.len() <= 0xFFFF_FFFF,
        ensures
            final(self).wf(),
            final(self).spec_same_but_cache(old(self)),
            ({
                let h = spec_vertex_hash(vertices@);
                let m0 = old(self).spec_cache();
                let us = spec_polygon_uniforms(
                    old(self).spec_ortho(),
                    position,
                    rotation_millideg,
                    scale,
                    color,
                );
                if m0.contains_key(h) {
                    &&& final(self).spec_cache() == m0
                    &&& spec_mesh_draw_result(m0[h].mesh, textures@, us, r)
                } else if !shaders@.contains_key(ShaderProgramId::Ortho) {
                    &&& final(self).spec_cache() == m0
                    &&& r == Err::<DrawCall, RenderError>(
                        RenderError::RegistryKeyMissing(
                            RegistryKey::Shader(ShaderProgramId::Ortho),
                        ),
                    )
                } else if vertices@.len() < 3 {
                    &&& final(self).spec_cache() == m0
                    &&& r == Err::<DrawCall, RenderError>(RenderError::MalformedGeometry)
                } else {
                    &&& final(self).spec_cache().contains_key(h)
                    &&& ({
                        let p = final(self).spec_cache()[h];
                        &&& final(self).spec_cache() == m0.insert(h, p)
                        &&& p.spec_hash() == h
                        &&& p.mesh.vertices@ == spec_polygon_vbo(vertices@)
                        &&& p.mesh.indices@ == spec_fan_indices(vertices@.len() as int)
                        &&& p.mesh.program.id == shaders@[ShaderProgramId::Ortho].id
                        &&& p.mesh.program.uniforms@
                            == shaders@[ShaderProgramId::Ortho].uniforms@
                        &&& p.mesh.textures@ == Seq::<(u32, TextureId)>::empty()
                        &&& spec_mesh_draw_result(p.mesh, textures@, us, r)
                    })
                }
            }),
    {
        let mut uniforms: Vec<Uniform> = Vec::new();
        uniforms.push(
            Uniform::Matrix4f(
                UniformName::Model,
                MatrixSpec::Model(
                    Transform {
                        scale: Vec3Fx { x: scale, y: scale, z: scale },
                        rotation: Rotation::AboutZ { millideg: rotation_millideg },
                        translation: position,
                    },
                ),
            ),
        );
        uniforms.push(
            Uniform::Matrix4f(
                UniformName::Projection,
                MatrixSpec::Orthographic(self.orthographic_projection),
            ),
        );
        uniforms.push(Uniform::Vec4(UniformName::Diffuse, color));
        proof {
            assert(uniforms@ =~= spec_polygon_uniforms(
                self.spec_ortho(),
                position,
                rotation_millideg,
                scale,
                color,
            ));
        }
        let index = match self.get_polygon_from_cache_or_store(shaders, vertices) {
            Ok(i) => i,
            Err(e) => {
                return Err(e);
            },
        };
        self.polygon_cache[index].1.mesh.draw(textures, &uniforms)
    }
}

} // verus!
