//! Shader stages and compile requests.
//!
//! A [`Shader`] pairs a stage with its GLSL source text. Compiling is GPU
//! work: [`Shader::compile`] produces the exact request the embedding must
//! submit, and the program builder in [`crate::graphics::program`] decides
//! what follows from the reported outcome.

use vstd::prelude::*;

verus! {

/// The two shader stages a program links.
#[derive(Clone, Copy, PartialEq, Eq, Structural, Debug)]
pub enum ShaderType {
    Vertex,
    Fragment,
}

/// One shader stage together with its GLSL source text.
#[derive(Debug)]
pub struct Shader {
    pub stage: ShaderType,
    pub source: String,
}

/// A compile order for the GPU: compile `source` as a shader of kind `stage`.
#[derive(Debug)]
pub struct CompileRequest {
    pub stage: ShaderType,
    pub source: String,
}

impl Shader {
    pub fn new(stage: ShaderType, source: String) -> (r: Self)
        ensures
            r.stage == stage,
            r.source == source,
    {
        Shader { stage, source }
    }

    /// The compile request for this shader, for the embedding to submit.
    pub fn compile(&self) -> (r: CompileRequest)
        ensures
            r.stage == self.stage,
            r.source == self.source,
    {
        CompileRequest { stage: self.stage, source: self.source.clone() }
    }
}

} // verus!
