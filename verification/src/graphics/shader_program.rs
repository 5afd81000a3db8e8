//! The basic pipeline with embedded shader sources.
//!
//! A minimal vertex/fragment pair is compiled straight from source text
//! carried in the binary, with no asset lookup. The build protocol itself —
//! compile both stages, link, release — is the one in
//! [`crate::graphics::program`].

use vstd::prelude::*;

use crate::graphics::shader::CompileRequest;
use crate::graphics::shader::ShaderType;

verus! {

/// The embedded vertex stage: pass the position through.
pub fn basic_vertex_source() -> (r: &'static str)
    ensures
        r@ == spec_basic_vertex_source(),
{
    "#version 330 core\n    layout (location = 0) in vec3 position;\n\n    void main()\n    {\n        gl_Position = vec4(position, 1.0);\n    }"
}

/// The embedded vertex stage: pass the position through.
pub open spec fn spec_basic_vertex_source() -> Seq<char> {
    "#version 330 core\n    layout (location = 0) in vec3 position;\n\n    void main()\n    {\n        gl_Position = vec4(position, 1.0);\n    }"@
}

/// The embedded fragment stage: a fixed orange color.
pub fn basic_fragment_source() -> (r: &'static str)
    ensures
        r@ == spec_basic_fragment_source(),
{
    "#version 330 core\n    out vec4 Color;\n    void main()\n    {\n        Color = vec4(0.9, 0.5, 0.2, 1.0);\n    }"
}

/// The embedded fragment stage: a fixed orange color.
pub open spec fn spec_basic_fragment_source() -> Seq<char> {
    "#version 330 core\n    out vec4 Color;\n    void main()\n    {\n        Color = vec4(0.9, 0.5, 0.2, 1.0);\n    }"@
}

/// The embedded vertex shaders.
#[derive(Clone, Copy, PartialEq, Eq, Structural, Debug)]
pub enum VertexShaderId {
    Basic,
}

/// The embedded fragment shaders.
#[derive(Clone, Copy, PartialEq, Eq, Structural, Debug)]
pub enum FragmentShaderId {
    Basic,
}

/// A vertex stage of the basic pipeline, with its embedded source.
#[derive(Debug)]
pub struct VertexShader {
    pub source: String,
}

impl VertexShader {
    pub fn new(name: VertexShaderId) -> (r: Self)
        ensures
            name is Basic ==> r.source@ == spec_basic_vertex_source(),
    {
        match name {
            VertexShaderId::Basic => {
                VertexShader { source: String::from_str(basic_vertex_source()) }
            },
        }
    }

    /// The compile request for this stage, for the embedding to submit.
    pub fn compile(&self) -> (r: CompileRequest)
        ensures
            r.stage is Vertex,
            r.source@ == self.source@,
    {
        CompileRequest { stage: ShaderType::Vertex, source: self.source.clone() }
    }
}

/// A fragment stage of the basic pipeline, with its embedded source.
#[derive(Debug)]
pub struct FragmentShader {
    pub source: String,
}

impl FragmentShader {
    pub fn new(name: FragmentShaderId) -> (r: Self)
        ensures
            name is Basic ==> r.source@ == spec_basic_fragment_source(),
    {
        match name {
            FragmentShaderId::Basic => {
                FragmentShader { source: String::from_str(basic_fragment_source()) }
            },
        }
    }

    /// The compile request for this stage, for the embedding to submit.
    pub fn compile(&self) -> (r: CompileRequest)
        ensures
            r.stage is Fragment,
            r.source@ == self.source@,
    {
        CompileRequest { stage: ShaderType::Fragment, source: self.source.clone() }
    }
}

} // verus!
