//! Logical shader identifiers and the shader program registry.

use vstd::prelude::*;

use crate::graphics::program::ShaderProgram;
use crate::registry::assoc_map;
use crate::registry::lemma_assoc_map_domain;
use crate::registry::lemma_assoc_map_get;
use crate::registry::lemma_assoc_map_push;
use crate::registry::spec_register;
use crate::registry::unique_keys;

verus! {

/// The closed set of shader stage sources the engine knows, each resolving
/// to a GLSL file relative to the shader asset folder.
#[derive(Clone, Copy, PartialEq, Eq, Structural, Debug, Hash)]
pub enum ShaderId {
    VertexBasic,
    FragmentBasic,
    VertexOrthographic,
    FragmentOrthographic,
    TextureVertexOrthographic,
    TextureFragmentOrthographic,
    VertexPerspective,
    FragmentPerspective,
    TextureVertexPerspective,
    TextureFragmentPerspective,
}

impl ShaderId {
    /// The GLSL file for this shader stage.
    pub open spec fn spec_path(self) -> Seq<char> {
        match self {
            ShaderId::VertexBasic => "basic/vertex.glsl"@,
            ShaderId::FragmentBasic => "basic/fragment.glsl"@,
            ShaderId::VertexOrthographic => "ortho/vertex.glsl"@,
            ShaderId::FragmentOrthographic => "ortho/fragment.glsl"@,
            ShaderId::TextureVertexOrthographic => "texture_ortho/vertex.glsl"@,
            ShaderId::TextureFragmentOrthographic => "texture_ortho/fragment.glsl"@,
            ShaderId::VertexPerspective => "perspective/vertex.glsl"@,
            ShaderId::FragmentPerspective => "perspective/fragment.glsl"@,
            ShaderId::TextureVertexPerspective => "texture_perspective/vertex.glsl"@,
            ShaderId::TextureFragmentPerspective => "texture_perspective/fragment.glsl"@,
        }
    }

    /// The GLSL file for this shader stage.
    pub fn get_path(&self) -> (r: &'static str)
        ensures
            r@ == self.spec_path(),
    {
        match self {
            ShaderId::VertexBasic => "basic/vertex.glsl",
            ShaderId::FragmentBasic => "basic/fragment.glsl",
            ShaderId::VertexOrthographic => "ortho/vertex.glsl",
            ShaderId::FragmentOrthographic => "ortho/fragment.glsl",
            ShaderId::TextureVertexOrthographic => "texture_ortho/vertex.glsl",
            ShaderId::TextureFragmentOrthographic => "texture_ortho/fragment.glsl",
            ShaderId::VertexPerspective => "perspective/vertex.glsl",
            ShaderId::FragmentPerspective => "perspective/fragment.glsl",
            ShaderId::TextureVertexPerspective => "texture_perspective/vertex.glsl",
            ShaderId::TextureFragmentPerspective => "texture_perspective/fragment.glsl",
        }
    }
}

/// The closed set of linked shader programs the engine knows.
#[derive(Clone, Copy, PartialEq, Eq, Structural, Debug, Hash)]
pub enum ShaderProgramId {
    Basic,
    Ortho,
    TextureOrtho,
    Perspective,
    TexturePerspective,
}

/// The process-wide cache of linked shader programs: built once at startup,
/// read for the rest of the process lifetime.
#[derive(Debug)]
pub struct ShaderRegistry {
    entries: Vec<(ShaderProgramId, ShaderProgram)>,
}

impl View for ShaderRegistry {
    type V = Map<ShaderProgramId, ShaderProgram>;

    closed spec fn view(&self) -> Map<ShaderProgramId, ShaderProgram> {
        assoc_map(self.entries@)
    }
}

impl ShaderRegistry {
    /// Well-formedness: no identifier is bound twice. Constructors establish
    /// it and every method preserves it.
    pub closed spec fn wf(&self) -> bool {
        unique_keys(self.entries@)
    }

    /// An empty registry, holding no program.
    pub fn new() -> (r: Self)
        ensures
            r.wf(),
            r@ == Map::<ShaderProgramId, ShaderProgram>::empty(),
    {
        ShaderRegistry { entries: Vec::new() }
    }

    /// Bind a built program to its identifier. A key that is already present
    /// keeps the program it was built with: a second build of the same
    /// identifier is not observable.
    pub fn register(&mut self, key: ShaderProgramId, value: ShaderProgram)
        requires
            old(self).wf(),
        ensures
            final(self).wf(),
            final(self)@ == spec_register(old(self)@, key, value),
    {
        let mut i: usize = 0;
        while i < self.entries.len()
            invariant
                *self == *old(self),
                old(self).wf(),
                i <= self.entries.len(),
                forall|j: int| 0 <= j < i ==> self.entries@[j].0 != key,
            decreases self.entries.len() - i,
        {
            if self.entries[i].0 == key {
                proof {
                    lemma_assoc_map_domain(self.entries@, key);
                }
                return ;
            }
            i += 1;
        }
        proof {
            lemma_assoc_map_domain(self.entries@, key);
            lemma_assoc_map_push(self.entries@, key, value);
        }
        self.entries.push((key, value));
    }

    /// Look the identifier up. Exactly the registered keys resolve, each to
    /// the program it was bound to.
    pub fn get(&self, key: ShaderProgramId) -> (r: Option<&ShaderProgram>)
        requires
            self.wf(),
        ensures
            r is Some <==> self@.contains_key(key),
            r matches Some(v) ==> *v == self@[key],
    {
        let mut i: usize = 0;
        while i < self.entries.len()
            invariant
                self.wf(),
                i <= self.entries.len(),
                forall|j: int| 0 <= j < i ==> self.entries@[j].0 != key,
            decreases self.entries.len() - i,
        {
            if self.entries[i].0 == key {
                proof {
                    lemma_assoc_map_domain(self.entries@, key);
                    lemma_assoc_map_get(self.entries@, i as int);
                }
                return Some(&self.entries[i].1);
            }
            i += 1;
        }
        proof {
            lemma_assoc_map_domain(self.entries@, key);
        }
        None
    }
}

} // verus!
