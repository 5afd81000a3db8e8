//! Logical mesh identifiers and the mesh registry.

use vstd::prelude::*;
use vstd::pervasive::arbitrary;

use crate::error::RegistryKey;
use crate::error::RenderError;
use crate::graphics::mesh::spec_texture_table;
use crate::graphics::mesh::Mesh;
use crate::graphics::program::ShaderProgram;
use crate::registry::assoc_map;
use crate::registry::lemma_assoc_map_domain;
use crate::registry::lemma_assoc_map_get;
use crate::registry::lemma_assoc_map_push;
use crate::registry::shader_registry::ShaderProgramId;
use crate::registry::shader_registry::ShaderRegistry;
use crate::registry::spec_register;
use crate::registry::texture_registry::TextureId;
use crate::registry::unique_keys;

verus! {

/// The closed set of meshes the engine knows. All of them share the unit
/// quad geometry; they differ in the program and textures bound to them.
#[derive(Clone, Copy, PartialEq, Eq, Structural, Debug, Hash)]
pub enum MeshId {
    Rect,
    TexturedRect,
    Quad,
    Wall,
}

/// The interleaved unit-quad vertex data: four vertices of position (3) and
/// texture coordinate (2), in fixed-point units, counter-clockwise from the
/// bottom-left corner.
pub open spec fn spec_quad_vbo() -> Seq<i64> {
    seq![
        -500i64, -500i64, 0i64, 0i64, 0i64,
        500i64, -500i64, 0i64, 1000i64, 0i64,
        500i64, 500i64, 0i64, 1000i64, 1000i64,
        -500i64, 500i64, 0i64, 0i64, 1000i64,
    ]
}

/// The unit-quad index data: two triangles.
pub open spec fn spec_quad_ebo() -> Seq<u32> {
    seq![0u32, 1u32, 2u32, 2u32, 3u32, 0u32]
}

impl MeshId {
    /// The interleaved vertex buffer for this mesh: position (3 components)
    /// then texture coordinate (2 components) per vertex, stride 5.
    pub fn get_vbo(&self) -> (r: Vec<i64>)
        ensures
            r@ == spec_quad_vbo(),
    {
        let r: Vec<i64> = vec![
            -500, -500, 0, 0, 0,
            500, -500, 0, 1000, 0,
            500, 500, 0, 1000, 1000,
            -500, 500, 0, 0, 1000,
        ];
        proof {
            assert(r@ =~= spec_quad_vbo());
        }
        r
    }

    /// The index buffer for this mesh: a triangle list covering the quad.
    pub fn get_ebo(&self) -> (r: Vec<u32>)
        ensures
            r@ == spec_quad_ebo(),
    {
        let r: Vec<u32> = vec![0, 1, 2, 2, 3, 0];
        proof {
            assert(r@ =~= spec_quad_ebo());
        }
        r
    }
}

/// The process-wide cache of built meshes: built once at startup, after the
/// shader and texture registries, read for the rest of the process lifetime.
#[derive(Debug)]
pub struct MeshRegistry {
    entries: Vec<(MeshId, Mesh)>,
}

impl View for MeshRegistry {
    type V = Map<MeshId, Mesh>;

    closed spec fn view(&self) -> Map<MeshId, Mesh> {
        assoc_map(self.entries@)
    }
}

impl MeshRegistry {
    /// Well-formedness: no identifier is bound twice. Constructors establish
    /// it and every method preserves it.
    pub closed spec fn wf(&self) -> bool {
        unique_keys(self.entries@)
    }

    /// An empty registry, holding no mesh.
    pub fn new() -> (r: Self)
        ensures
            r.wf(),
            r@ == Map::<MeshId, Mesh>::empty(),
    {
        MeshRegistry { entries: Vec::new() }
    }

    /// Bind a built mesh to its identifier. A key that is already present
    /// keeps the mesh it was built with: a second build of the same
    /// identifier is not observable.
    pub fn register(&mut self, key: MeshId, value: Mesh)
        requires
            old(self).wf(),
        ensures
            final(self).wf(),
            final(self)@ == spec_register(old(self)@, key, value),
    {
        let mut i: usize = 0;
        while i < self.entries.len()
            invariant
                *self == *old(self),
                old(self).wf(),
                i <= self.entries.len(),
                forall|j: int| 0 <= j < i ==> self.entries@[j].0 != key,
            decreases self.entries.len() - i,
        {
            if self.entries[i].0 == key {
                proof {
                    lemma_assoc_map_domain(self.entries@, key);
                }
                return ;
            }
            i += 1;
        }
        proof {
            lemma_assoc_map_domain(self.entries@, key);
            lemma_assoc_map_push(self.entries@, key, value);
        }
        self.entries.push((key, value));
    }

    /// Look the identifier up. Exactly the registered keys resolve, each to
    /// the mesh it was bound to.
    pub fn get(&self, key: MeshId) -> (r: Option<&Mesh>)
        requires
            self.wf(),
        ensures
            r is Some <==> self@.contains_key(key),
            r matches Some(v) ==> *v == self@[key],
    {
        let mut i: usize = 0;
        while i < self.entries.len()
            invariant
                self.wf(),
                i <= self.entries.len(),
                forall|j: int| 0 <= j < i ==> self.entries@[j].0 != key,
            decreases self.entries.len() - i,
        {
            if self.entries[i].0 == key {
                proof {
                    lemma_assoc_map_domain(self.entries@, key);
                    lemma_assoc_map_get(self.entries@, i as int);
                }
                return Some(&self.entries[i].1);
            }
            i += 1;
        }
        proof {
            lemma_assoc_map_domain(self.entries@, key);
        }
        None
    }
}

/// A mesh has the given data, program and texture table.
pub open spec fn spec_mesh_matches(
    m: Mesh,
    vbo: Seq<i64>,
    ebo: Seq<u32>,
    p: ShaderProgram,
    ts: Seq<(u32, TextureId)>,
) -> bool {
    &&& m.vertices@ == vbo
    &&& m.indices@ == ebo
    &&& m.program.id == p.id
    &&& m.program.uniforms@ == p.uniforms@
    &&& m.textures@ == ts
}

/// The program the mesh registry build misses first, in build order.
pub open spec fn spec_first_missing_program(m: Map<ShaderProgramId, ShaderProgram>) -> ShaderProgramId {
    if !m.contains_key(ShaderProgramId::Ortho) {
        ShaderProgramId::Ortho
    } else if !m.contains_key(ShaderProgramId::TextureOrtho) {
        ShaderProgramId::TextureOrtho
    } else if !m.contains_key(ShaderProgramId::Perspective) {
        ShaderProgramId::Perspective
    } else if !m.contains_key(ShaderProgramId::TexturePerspective) {
        ShaderProgramId::TexturePerspective
    } else {
        arbitrary()
    }
}

/// Build the mesh registry. The shader registry must already be fully
/// built: each mesh shares the program its identifier calls for. The quad
/// geometry is shared by all four meshes; the textured rectangle binds the
/// shotgun sprite and the wall binds the brick texture, each on unit 0.
pub fn build_mesh_registry(shaders: &ShaderRegistry) -> (r: Result<MeshRegistry, RenderError>)
    requires
        shaders.wf(),
    ensures
        r is Ok <==> {
            &&& shaders@.contains_key(ShaderProgramId::Ortho)
            &&& shaders@.contains_key(ShaderProgramId::TextureOrtho)
            &&& shaders@.contains_key(ShaderProgramId::Perspective)
            &&& shaders@.contains_key(ShaderProgramId::TexturePerspective)
        },
        r matches Ok(reg) ==> {
            &&& reg.wf()
            &&& reg@.dom() =~= set![MeshId::Rect, MeshId::TexturedRect, MeshId::Quad, MeshId::Wall]
            &&& spec_mesh_matches(
                reg@[MeshId::Rect],
                spec_quad_vbo(),
                spec_quad_ebo(),
                shaders@[ShaderProgramId::Ortho],
                spec_texture_table(None),
            )
            &&& spec_mesh_matches(
                reg@[MeshId::TexturedRect],
                spec_quad_vbo(),
                spec_quad_ebo(),
                shaders@[ShaderProgramId::TextureOrtho],
                spec_texture_table(Some(TextureId::Shotgun)),
            )
            &&& spec_mesh_matches(
                reg@[MeshId::Quad],
                spec_quad_vbo(),
                spec_quad_ebo(),
                shaders@[ShaderProgramId::Perspective],
                spec_texture_table(None),
            )
            &&& spec_mesh_matches(
                reg@[MeshId::Wall],
                spec_quad_vbo(),
                spec_quad_ebo(),
                shaders@[ShaderProgramId::TexturePerspective],
                spec_texture_table(Some(TextureId::BrickWall)),
            )
        },
        r matches Err(e) ==> e == RenderError::RegistryKeyMissing(
            RegistryKey::Shader(spec_first_missing_program(shaders@)),
        ),
{
    let ortho = match shaders.get(ShaderProgramId::Ortho) {
        Some(p) => p,
        None => {
            return Err(
                RenderError::RegistryKeyMissing(RegistryKey::Shader(ShaderProgramId::Ortho)),
            );
        },
    };
    let texture_ortho = match shaders.get(ShaderProgramId::TextureOrtho) {
        Some(p) => p,
        None => {
            return Err(
                RenderError::RegistryKeyMissing(RegistryKey::Shader(ShaderProgramId::TextureOrtho)),
            );
        },
    };
    let perspective = match shaders.get(ShaderProgramId::Perspective) {
        Some(p) => p,
        None => {
            return Err(
                RenderError::RegistryKeyMissing(RegistryKey::Shader(ShaderProgramId::Perspective)),
            );
        },
    };
    let texture_perspective = match shaders.get(ShaderProgramId::TexturePerspective) {
        Some(p) => p,
        None => {
            return Err(
                RenderError::RegistryKeyMissing(
                    RegistryKey::Shader(ShaderProgramId::TexturePerspective),
                ),
            );
        },
    };

    let mut registry = MeshRegistry::new();
    let rect_mesh = Mesh::new(
        MeshId::Rect.get_vbo(),
        MeshId::Rect.get_ebo(),
        ortho.duplicate(),
        None,
    );
    registry.register(MeshId::Rect, rect_mesh);

    let texture_rect_mesh = Mesh::new(
        MeshId::TexturedRect.get_vbo(),
        MeshId::TexturedRect.get_ebo(),
        texture_ortho.duplicate(),
        Some(TextureId::Shotgun),
    );
    registry.register(MeshId::TexturedRect, texture_rect_mesh);

    let perspective_mesh = Mesh::new(
        MeshId::Quad.get_vbo(),
        MeshId::Quad.get_ebo(),
        perspective.duplicate(),
        None,
    );
    registry.register(MeshId::Quad, perspective_mesh);

    let wall_mesh = Mesh::new(
        MeshId::Quad.get_vbo(),
        MeshId::Quad.get_ebo(),
        texture_perspective.duplicate(),
        Some(TextureId::BrickWall),
    );
    registry.register(MeshId::Wall, wall_mesh);

    Ok(registry)
}

} // verus!
