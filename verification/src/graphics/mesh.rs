//! Meshes: immutable vertex/index data, their upload layout, and draw-call
//! assembly.
//!
//! A mesh owns a copy of its interleaved vertex data (position 3, texture
//! coordinate 2, stride 5), its triangle-list index data, the program it is
//! drawn with, and the textures bound to its texture units. Meshes are built
//! once and never change. Drawing assembles a fully resolved [`DrawCall`]
//! for the embedding: texture bindings in declaration order, then the
//! program, then one uniform write per override, then an indexed
//! triangle-list draw of all indices.

use vstd::prelude::*;
use vstd::pervasive::arbitrary;

use crate::error::RegistryKey;
use crate::error::RenderError;
use crate::graphics::program::ShaderProgram;
use crate::graphics::program::Uniform;
use crate::graphics::program::UniformName;
use crate::graphics::program::UniformWrite;
use crate::graphics::texture::Texture;
use crate::graphics::texture::TextureBind;
use crate::registry::texture_registry::TextureId;
use crate::registry::texture_registry::TextureRegistry;

verus! {

/// One entry of the vertex attribute layout; all counts are in components.
#[derive(Clone, Copy, PartialEq, Eq, Structural, Debug)]
pub struct AttribPointer {
    pub index: u32,
    pub components: u32,
    pub stride: u32,
    pub offset: u32,
}

/// The position attribute: three components at the start of each vertex.
pub open spec fn spec_position_attrib() -> AttribPointer {
    AttribPointer { index: 0, components: 3u32, stride: 5, offset: 0 }
}

/// The texture coordinate attribute: two components after the position.
pub open spec fn spec_texcoord_attrib() -> AttribPointer {
    AttribPointer { index: 1, components: 2, stride: 5, offset: 3u32 }
}

/// The attribute layout of a mesh: the position attribute always, the
/// texture coordinate attribute only when textures are bound.
pub open spec fn spec_attributes(textured: bool) -> Seq<AttribPointer> {
    if textured {
        seq![spec_position_attrib(), spec_texcoord_attrib()]
    } else {
        seq![spec_position_attrib()]
    }
}

/// Everything the embedding needs to create the GPU-side buffers of one
/// mesh: which buffer objects to fill (the mesh's own `vertices` and
/// `indices` are the data), and the vertex attribute layout to declare.
#[derive(Debug)]
pub struct UploadPlan {
    pub vao_id: u32,
    pub vbo_id: u32,
    pub ebo_id: u32,
    pub vertex_value_count: usize,
    pub index_count: usize,
    pub attributes: Vec<AttribPointer>,
}

/// A fully resolved draw submission.
#[derive(Debug)]
pub struct DrawCall {
    /// Texture bindings to perform first, in declaration order.
    pub texture_binds: Vec<TextureBind>,
    /// The program to activate.
    pub program: u32,
    /// The uniform writes to apply, in the order they were requested.
    pub uniform_writes: Vec<UniformWrite>,
    /// How many indices the triangle-list draw covers.
    pub index_count: usize,
}

/// The texture-unit table of a mesh: one texture on unit 0, or none.
pub open spec fn spec_texture_table(t: Option<TextureId>) -> Seq<(u32, TextureId)> {
    match t {
        Some(id) => seq![(0u32, id)],
        None => Seq::empty(),
    }
}

/// Every texture the mesh declares resolves in the registry.
pub open spec fn spec_textures_present(
    ts: Seq<(u32, TextureId)>,
    m: Map<TextureId, Texture>,
) -> bool {
    forall|j: int| 0 <= j < ts.len() ==> m.contains_key((#[trigger] ts[j]).1)
}

/// The first declared texture that does not resolve, in binding order.
pub open spec fn spec_first_absent_texture(
    ts: Seq<(u32, TextureId)>,
    m: Map<TextureId, Texture>,
) -> Option<TextureId>
    decreases ts.len(),
{
    if ts.len() == 0 {
        None
    } else if !m.contains_key(ts.first().1) {
        Some(ts.first().1)
    } else {
        spec_first_absent_texture(ts.drop_first(), m)
    }
}

/// Every uniform override names a uniform the program declares.
pub open spec fn spec_uniforms_known(p: ShaderProgram, us: Seq<Uniform>) -> bool {
    forall|j: int| 0 <= j < us.len() ==> p.spec_has_uniform((#[trigger] us[j]).spec_name())
}

/// The first override whose name the program does not declare.
pub open spec fn spec_first_unknown_uniform(p: ShaderProgram, us: Seq<Uniform>) -> Option<
    UniformName,
>
    decreases us.len(),
{
    if us.len() == 0 {
        None
    } else if !p.spec_has_uniform(us.first().spec_name()) {
        Some(us.first().spec_name())
    } else {
        spec_first_unknown_uniform(p, us.drop_first())
    }
}

/// The error a draw reports: the first unresolved texture if any, else the
/// first unknown uniform.
pub open spec fn spec_draw_error(
    m: Mesh,
    tex: Map<TextureId, Texture>,
    us: Seq<Uniform>,
) -> RenderError {
    match spec_first_absent_texture(m.textures@, tex) {
        Some(t) => RenderError::RegistryKeyMissing(RegistryKey::Texture(t)),
        None => match spec_first_unknown_uniform(m.program, us) {
            Some(n) => RenderError::UniformNotFound(n),
            None => arbitrary(),
        },
    }
}

/// A draw call carries exactly: the mesh's resolved texture bindings in
/// declaration order, the mesh's program, one write per uniform override in
/// request order, and the mesh's full index count.
pub open spec fn spec_draw_call_matches(
    dc: DrawCall,
    m: Mesh,
    tex: Map<TextureId, Texture>,
    us: Seq<Uniform>,
) -> bool {
    &&& dc.program == m.program.id
    &&& dc.index_count == m.indices@.len()
    &&& dc.texture_binds@.len() == m.textures@.len()
    &&& (forall|j: int|
        0 <= j < m.textures@.len() ==> dc.texture_binds@[j] == (TextureBind {
            unit: (#[trigger] m.textures@[j]).0,
            texture: tex[m.textures@[j].1].id,
        }))
    &&& dc.uniform_writes@.len() == us.len()
    &&& (forall|j: int|
        0 <= j < us.len() ==> dc.uniform_writes@[j] == (UniformWrite {
            program: m.program.id,
            uniform: #[trigger] us[j],
        }))
}

/// What drawing a mesh under uniform overrides returns: a matching draw
/// call exactly when every declared texture resolves and every override is
/// a declared uniform, else the first such failure.
pub open spec fn spec_mesh_draw_result(
    m: Mesh,
    tex: Map<TextureId, Texture>,
    us: Seq<Uniform>,
    r: Result<DrawCall, RenderError>,
) -> bool {
    &&& (r is Ok <==> spec_textures_present(m.textures@, tex) && spec_uniforms_known(
        m.program,
        us,
    ))
    &&& (r matches Ok(dc) ==> spec_draw_call_matches(dc, m, tex, us))
    &&& (r matches Err(e) ==> e == spec_draw_error(m, tex, us))
}

proof fn lemma_first_absent_texture_at(ts: Seq<(u32, TextureId)>, m: Map<TextureId, Texture>, i: int)
    requires
        0 <= i < ts.len(),
        forall|j: int| 0 <= j < i ==> m.contains_key((#[trigger] ts[j]).1),
        !m.contains_key(ts[i].1),
    ensures
        spec_first_absent_texture(ts, m) == Some(ts[i].1),
    decreases i,
{
    if i > 0 {
        lemma_first_absent_texture_at(ts.drop_first(), m, i - 1);
    }
}

proof fn lemma_no_absent_texture(ts: Seq<(u32, TextureId)>, m: Map<TextureId, Texture>)
    requires
        spec_textures_present(ts, m),
    ensures
        spec_first_absent_texture(ts, m) is None,
    decreases ts.len(),
{
    if ts.len() > 0 {
        assert forall|j: int|
            0 <= j < ts.drop_first().len() implies m.contains_key(
            (#[trigger] ts.drop_first()[j]).1,
        ) by {
            assert(ts.drop_first()[j] == ts[j + 1]);
        }
        lemma_no_absent_texture(ts.drop_first(), m);
    }
}

proof fn lemma_first_unknown_uniform_at(p: ShaderProgram, us: Seq<Uniform>, i: int)
    requires
        0 <= i < us.len(),
        forall|j: int| 0 <= j < i ==> p.spec_has_uniform((#[trigger] us[j]).spec_name()),
        !p.spec_has_uniform(us[i].spec_name()),
    ensures
        spec_first_unknown_uniform(p, us) == Some(us[i].spec_name()),
    decreases i,
{
    if i > 0 {
        lemma_first_unknown_uniform_at(p, us.drop_first(), i - 1);
    }
}

proof fn lemma_no_unknown_uniform(p: ShaderProgram, us: Seq<Uniform>)
    requires
        spec_uniforms_known(p, us),
    ensures
        spec_first_unknown_uniform(p, us) is None,
    decreases us.len(),
{
    if us.len() > 0 {
        assert forall|j: int|
            0 <= j < us.drop_first().len() implies p.spec_has_uniform(
            (#[trigger] us.drop_first()[j]).spec_name(),
        ) by {
            assert(us.drop_first()[j] == us[j + 1]);
        }
        lemma_no_unknown_uniform(p, us.drop_first());
    }
}

/// A GPU-resident mesh: its source data, fixed attribute layout, program
/// and texture bindings. Immutable once built; drawing is static indexed
/// triangle lists only.
#[derive(Debug)]
pub struct Mesh {
    pub vertices: Vec<i64>,
    pub indices: Vec<u32>,
    pub program: ShaderProgram,
    pub textures: Vec<(u32, TextureId)>,
}

impl Mesh {
    /// Build a mesh from interleaved vertex data, triangle-list indices,
    /// the program that draws it and at most one texture, bound to unit 0.
    pub fn new(
        vbo: Vec<i64>,
        ebo: Vec<u32>,
        program: ShaderProgram,
        texture_id: Option<TextureId>,
    ) -> (r: Self)
        ensures
            r.vertices == vbo,
            r.indices == ebo,
            r.program == program,
            r.textures@ == spec_texture_table(texture_id),
    {
        let mut textures: Vec<(u32, TextureId)> = Vec::new();
        match texture_id {
            Some(id) => {
                textures.push((0, id));
                proof {
                    assert(textures@ =~= spec_texture_table(texture_id));
                }
            },
            None => {
                proof {
                    assert(textures@ =~= spec_texture_table(texture_id));
                }
            },
        }
        Mesh { vertices: vbo, indices: ebo, program, textures }
    }

    /// The buffer setup for this mesh: fill the given vertex array, vertex
    /// buffer and index buffer objects with the mesh's data, and declare the
    /// fixed attribute layout — the texture coordinate attribute only when a
    /// texture is bound.
    pub fn upload_plan(&self, vao_id: u32, vbo_id: u32, ebo_id: u32) -> (r: UploadPlan)
        ensures
            r.vao_id == vao_id,
            r.vbo_id == vbo_id,
            r.ebo_id == ebo_id,
            r.vertex_value_count == self.vertices@.len(),
            r.index_count == self.indices@.len(),
            r.attributes@ == spec_attributes(self.textures@.len() > 0),
    {
        let mut attributes: Vec<AttribPointer> = Vec::new();
        attributes.push(AttribPointer { index: 0, components: 3, stride: 5, offset: 0 });
        if self.textures.len() > 0 {
            attributes.push(AttribPointer { index: 1, components: 2, stride: 5, offset: 3 });
            proof {
                assert(attributes@ =~= spec_attributes(true));
            }
        } else {
            proof {
                assert(attributes@ =~= spec_attributes(false));
            }
        }
        UploadPlan {
            vao_id,
            vbo_id,
            ebo_id,
            vertex_value_count: self.vertices.len(),
            index_count: self.indices.len(),
            attributes,
        }
    }

    /// Assemble the draw call for this mesh under the given uniform
    /// overrides: bind every declared texture, activate the program, write
    /// each override, draw all indices. Fails on the first declared texture
    /// the registry does not hold, else on the first override naming a
    /// uniform the program does not declare.
    pub fn draw(&self, textures: &TextureRegistry, uniforms: &Vec<Uniform>) -> (r: Result<
        DrawCall,
        RenderError,
    >)
        requires
            textures.wf(),
        ensures
            spec_mesh_draw_result(*self, textures@, uniforms@, r),
    {
        let mut binds: Vec<TextureBind> = Vec::new();
        let mut i: usize = 0;
        while i < self.textures.len()
            invariant
                textures.wf(),
                i <= self.textures@.len(),
                binds@.len() == i,
                forall|j: int|
                    0 <= j < i ==> textures@.contains_key((#[trigger] self.textures@[j]).1),
                forall|j: int|
                    0 <= j < i ==> binds@[j] == (TextureBind {
                        unit: (#[trigger] self.textures@[j]).0,
                        texture: textures@[self.textures@[j].1].id,
                    }),
            decreases self.textures@.len() - i,
        {
            let unit = self.textures[i].0;
            let tid = self.textures[i].1;
            match textures.get(tid) {
                Some(t) => {
                    binds.push(TextureBind { unit, texture: t.id });
                },
                None => {
                    proof {
                        lemma_first_absent_texture_at(self.textures@, textures@, i as int);
                    }
                    return Err(RenderError::RegistryKeyMissing(RegistryKey::Texture(tid)));
                },
            }
            i += 1;
        }
        let mut writes: Vec<UniformWrite> = Vec::new();
        let mut k: usize = 0;
        while k < uniforms.len()
            invariant
                spec_textures_present(self.textures@, textures@),
                k <= uniforms@.len(),
                writes@.len() == k,
                forall|j: int|
                    0 <= j < k ==> self.program.spec_has_uniform(
                        (#[trigger] uniforms@[j]).spec_name(),
                    ),
                forall|j: int|
                    0 <= j < k ==> writes@[j] == (UniformWrite {
                        program: self.program.id,
                        uniform: #[trigger] uniforms@[j],
                    }),
            decreases uniforms@.len() - k,
        {
            let u = uniforms[k];
            let res = match u {
                Uniform::Matrix4f(n, m) => self.program.set_uniform_matrix_4f(n, m),
                Uniform::Vec4(n, v) => self.program.set_uniform_vec4(n, v),
                Uniform::Int(n, v) => self.program.set_uniform_int(n, v),
                Uniform::Float(n, v) => self.program.set_uniform_float(n, v),
            };
            match res {
                Ok(w) => {
                    writes.push(w);
                },
                Err(e) => {
                    proof {
                        lemma_no_absent_texture(self.textures@, textures@);
                        lemma_first_unknown_uniform_at(self.program, uniforms@, k as int);
                    }
                    return Err(e);
                },
            }
            k += 1;
        }
        Ok(
            DrawCall {
                texture_binds: binds,
                program: self.program.use_program(),
                uniform_writes: writes,
                index_count: self.indices.len(),
            },
        )
    }
}

} // verus!
