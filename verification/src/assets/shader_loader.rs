//! The shader source catalog.
//!
//! Reading GLSL files from disk is the embedding's work; it fills a
//! [`SourceCatalog`] at startup. Resolving a shader identifier against the
//! catalog is decided here: a missing source is fatal at registry-build
//! time and surfaces as [`RenderError::AssetMissing`].

use vstd::prelude::*;

use crate::error::RenderError;
use crate::registry::assoc_map;
use crate::registry::lemma_assoc_map_domain;
use crate::registry::lemma_assoc_map_get;
use crate::registry::lemma_assoc_map_push;
use crate::registry::shader_registry::ShaderId;
use crate::registry::spec_register;
use crate::registry::unique_keys;

verus! {

/// The GLSL source text of every shader the embedding has loaded.
#[derive(Debug)]
pub struct SourceCatalog {
    entries: Vec<(ShaderId, String)>,
}

impl View for SourceCatalog {
    type V = Map<ShaderId, String>;

    closed spec fn view(&self) -> Map<ShaderId, String> {
        assoc_map(self.entries@)
    }
}

impl SourceCatalog {
    /// Well-formedness: no identifier is bound twice.
    pub closed spec fn wf(&self) -> bool {
        unique_keys(self.entries@)
    }

    /// An empty catalog, holding no source.
    pub fn new() -> (r: Self)
        ensures
            r.wf(),
            r@ == Map::<ShaderId, String>::empty(),
    {
        SourceCatalog { entries: Vec::new() }
    }

    /// Bind loaded source text to its identifier. An identifier that is
    /// already present keeps the text it was loaded with.
    pub fn register(&mut self, key: ShaderId, value: String)
        requires
            old(self).wf(),
        ensures
            final(self).wf(),
            final(self)@ == spec_register(old(self)@, key, value),
    {
        let mut i: usize = 0;
        while i < self.entries.len()
            invariant
                *self == *old(self),
                old(self).wf(),
                i <= self.entries.len(),
                forall|j: int| 0 <= j < i ==> self.entries@[j].0 != key,
            decreases self.entries.len() - i,
        {
            if self.entries[i].0 == key {
                proof {
                    lemma_assoc_map_domain(self.entries@, key);
                }
                return ;
            }
            i += 1;
        }
        proof {
            lemma_assoc_map_domain(self.entries@, key);
            lemma_assoc_map_push(self.entries@, key, value);
        }
        self.entries.push((key, value));
    }
}

/// Resolve a shader identifier to its GLSL source text. Exactly the loaded
/// identifiers resolve; a missing one fails with
/// [`RenderError::AssetMissing`] naming the identifier.
pub fn load_shader_source(catalog: &SourceCatalog, id: ShaderId) -> (r: Result<String, RenderError>)
    requires
        catalog.wf(),
    ensures
        r is Ok <==> catalog@.contains_key(id),
        r matches Ok(s) ==> s == catalog@[id],
        r matches Err(e) ==> e == RenderError::AssetMissing(id),
{
    let mut i: usize = 0;
    while i < catalog.entries.len()
        invariant
            catalog.wf(),
            i <= catalog.entries.len(),
            forall|j: int| 0 <= j < i ==> catalog.entries@[j].0 != id,
        decreases catalog.entries.len() - i,
    {
        if catalog.entries[i].0 == id {
            proof {
                lemma_assoc_map_domain(catalog.entries@, id);
                lemma_assoc_map_get(catalog.entries@, i as int);
            }
            return Ok(catalog.entries[i].1.clone());
        }
        i += 1;
    }
    proof {
        lemma_assoc_map_domain(catalog.entries@, id);
    }
    Err(RenderError::AssetMissing(id))
}

} // verus!
