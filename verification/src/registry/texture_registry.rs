//! Logical texture identifiers and the texture registry.

use vstd::prelude::*;

use crate::graphics::texture::Texture;
use crate::registry::assoc_map;
use crate::registry::lemma_assoc_map_domain;
use crate::registry::lemma_assoc_map_get;
use crate::registry::lemma_assoc_map_push;
use crate::registry::spec_register;
use crate::registry::unique_keys;

verus! {

/// The closed set of textures the engine knows.
#[derive(Clone, Copy, PartialEq, Eq, Structural, Debug, Hash)]
pub enum TextureId {
    BrickWall,
    Shotgun,
}

impl TextureId {
    /// The image file for this texture, relative to the texture asset folder.
    pub open spec fn spec_path(self) -> Seq<char> {
        match self {
            TextureId::BrickWall => "doom_wall.png"@,
            TextureId::Shotgun => "SHTFC0.png"@,
        }
    }

    /// The image file for this texture, relative to the texture asset folder.
    pub fn get_path(&self) -> (r: &'static str)
        ensures
            r@ == self.spec_path(),
    {
        match self {
            TextureId::BrickWall => "doom_wall.png",
            TextureId::Shotgun => "SHTFC0.png",
        }
    }
}

/// The process-wide cache of built textures: built once at startup, read for
/// the rest of the process lifetime.
#[derive(Debug)]
pub struct TextureRegistry {
    entries: Vec<(TextureId, Texture)>,
}

impl View for TextureRegistry {
    type V = Map<TextureId, Texture>;

    closed spec fn view(&self) -> Map<TextureId, Texture> {
        assoc_map(self.entries@)
    }
}

impl TextureRegistry {
    /// Well-formedness: no identifier is bound twice. Constructors establish
    /// it and every method preserves it.
    pub closed spec fn wf(&self) -> bool {
        unique_keys(self.entries@)
    }

    /// An empty registry, holding no texture.
    pub fn new() -> (r: Self)
        ensures
            r.wf(),
            r@ == Map::<TextureId, Texture>::empty(),
    {
        TextureRegistry { entries: Vec::new() }
    }

    /// Bind a built texture to its identifier. A key that is already present
    /// keeps the texture it was built with: a second build of the same
    /// identifier is not observable.
    pub fn register(&mut self, key: TextureId, value: Texture)
        requires
            old(self).wf(),
        ensures
            final(self).wf(),
            final(self)@ == spec_register(old(self)@, key, value),
    {
        let mut i: usize = 0;
        while i < self.entries.len()
            invariant
                *self == *old(self),
                old(self).wf(),
                i <= self.entries.len(),
                forall|j: int| 0 <= j < i ==> self.entries@[j].0 != key,
            decreases self.entries.len() - i,
        {
            if self.entries[i].0 == key {
                proof {
                    lemma_assoc_map_domain(self.entries@, key);
                }
                return ;
            }
            i += 1;
        }
        proof {
            lemma_assoc_map_domain(self.entries@, key);
            lemma_assoc_map_push(self.entries@, key, value);
        }
        self.entries.push((key, value));
    }

    /// Look the identifier up. Exactly the registered keys resolve, each to
    /// the texture it was bound to.
    pub fn get(&self, key: TextureId) -> (r: Option<&Texture>)
        requires
            self.wf(),
        ensures
            r is Some <==> self@.contains_key(key),
            r matches Some(v) ==> *v == self@[key],
    {
        let mut i: usize = 0;
        while i < self.entries.len()
            invariant
                self.wf(),
                i <= self.entries.len(),
                forall|j: int| 0 <= j < i ==> self.entries@[j].0 != key,
            decreases self.entries.len() - i,
        {
            if self.entries[i].0 == key {
                proof {
                    lemma_assoc_map_domain(self.entries@, key);
                    lemma_assoc_map_get(self.entries@, i as int);
                }
                return Some(&self.entries[i].1);
            }
            i += 1;
        }
        proof {
            lemma_assoc_map_domain(self.entries@, key);
        }
        None
    }
}

} // verus!
