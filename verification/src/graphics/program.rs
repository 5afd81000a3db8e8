//! Linked shader programs, their uniform interface, and the build protocol.
//!
//! Building a program alternates GPU work (compile a stage, link, release)
//! with decisions (carry on, or fail with the reported log). The decisions
//! live here, in [`ProgramBuilder`]: the embedding performs each
//! [`BuildAction`] and reports the outcome as a [`GpuEvent`]. A program is
//! either fully built or the build has failed; no partially linked state is
//! ever handed out.

use vstd::prelude::*;
use vstd::pervasive::unreached;

use crate::error::RenderError;
use crate::graphics::shader::CompileRequest;
use crate::graphics::shader::Shader;
use crate::graphics::shader::ShaderType;
use crate::graphics::transform::MatrixSpec;
use crate::fixed::Vec4Fx;

verus! {

/// The closed set of uniform names the engine's shaders declare.
#[derive(Clone, Copy, PartialEq, Eq, Structural, Debug)]
pub enum UniformName {
    Model,
    View,
    Projection,
    Diffuse,
    Texture1,
    TexWidthScale,
}

impl UniformName {
    /// The exact spelling of the uniform in the GLSL sources.
    pub open spec fn spec_str(self) -> Seq<char> {
        match self {
            UniformName::Model => "model"@,
            UniformName::View => "view"@,
            UniformName::Projection => "projection"@,
            UniformName::Diffuse => "diffuse"@,
            UniformName::Texture1 => "texture1"@,
            UniformName::TexWidthScale => "texWidthScale"@,
        }
    }

    /// The exact spelling of the uniform in the GLSL sources.
    pub fn as_str(&self) -> (r: &'static str)
        ensures
            r@ == self.spec_str(),
    {
        match self {
            UniformName::Model => "model",
            UniformName::View => "view",
            UniformName::Projection => "projection",
            UniformName::Diffuse => "diffuse",
            UniformName::Texture1 => "texture1",
            UniformName::TexWidthScale => "texWidthScale",
        }
    }
}

/// A uniform value to supply for one draw call.
#[derive(Clone, Copy, PartialEq, Eq, Structural, Debug)]
pub enum Uniform {
    Matrix4f(UniformName, MatrixSpec),
    Vec4(UniformName, Vec4Fx),
    Int(UniformName, i32),
    Float(UniformName, i64),
}

impl Uniform {
    /// The name the value is bound to.
    pub open spec fn spec_name(self) -> UniformName {
        match self {
            Uniform::Matrix4f(n, _) => n,
            Uniform::Vec4(n, _) => n,
            Uniform::Int(n, _) => n,
            Uniform::Float(n, _) => n,
        }
    }

    /// The name the value is bound to.
    pub fn name(&self) -> (r: UniformName)
        ensures
            r == self.spec_name(),
    {
        match self {
            Uniform::Matrix4f(n, _) => *n,
            Uniform::Vec4(n, _) => *n,
            Uniform::Int(n, _) => *n,
            Uniform::Float(n, _) => *n,
        }
    }
}

/// An order to write one uniform of one program.
#[derive(Clone, Copy, PartialEq, Eq, Structural, Debug)]
pub struct UniformWrite {
    pub program: u32,
    pub uniform: Uniform,
}

/// A linked, executable shader program: its GPU handle and the uniforms its
/// sources declare. Only [`ProgramBuilder::finish`] creates one, and only
/// after the link succeeded and the stage objects were released.
#[derive(Debug)]
pub struct ShaderProgram {
    pub id: u32,
    pub uniforms: Vec<UniformName>,
}

impl ShaderProgram {
    /// Whether the linked program declares the uniform.
    pub open spec fn spec_has_uniform(self, name: UniformName) -> bool {
        self.uniforms@.contains(name)
    }

    /// Resolve a uniform name. Using a name the program does not declare is
    /// a programming error, reported as [`RenderError::UniformNotFound`].
    pub fn check_uniform(&self, name: UniformName) -> (r: Result<(), RenderError>)
        ensures
            r is Ok <==> self.spec_has_uniform(name),
            r is Err ==> r->Err_0 == RenderError::UniformNotFound(name),
    {
        let mut i: usize = 0;
        while i < self.uniforms.len()
            invariant
                i <= self.uniforms.len(),
                forall|j: int| 0 <= j < i ==> self.uniforms@[j] != name,
            decreases self.uniforms.len() - i,
        {
            if self.uniforms[i] == name {
                return Ok(());
            }
            i += 1;
        }
        Err(RenderError::UniformNotFound(name))
    }

    /// A copy of the program handle and its uniform interface. The GPU
    /// program object itself is shared: copies name the same linked program.
    pub fn duplicate(&self) -> (r: Self)
        ensures
            r.id == self.id,
            r.uniforms@ == self.uniforms@,
    {
        let mut uniforms: Vec<UniformName> = Vec::new();
        let mut i: usize = 0;
        while i < self.uniforms.len()
            invariant
                i <= self.uniforms@.len(),
                uniforms@ == self.uniforms@.take(i as int),
            decreases self.uniforms@.len() - i,
        {
            uniforms.push(self.uniforms[i]);
            proof {
                assert(self.uniforms@.take(i + 1) =~= self.uniforms@.take(i as int).push(
                    self.uniforms@[i as int],
                ));
            }
            i += 1;
        }
        proof {
            assert(self.uniforms@.take(self.uniforms@.len() as int) =~= self.uniforms@);
        }
        ShaderProgram { id: self.id, uniforms }
    }

    /// The program handle the embedding activates for drawing.
    pub fn use_program(&self) -> (r: u32)
        ensures
            r == self.id,
    {
        self.id
    }

    pub fn set_uniform_matrix_4f(&self, name: UniformName, matrix: MatrixSpec) -> (r: Result<
        UniformWrite,
        RenderError,
    >)
        ensures
            r is Ok <==> self.spec_has_uniform(name),
            r is Ok ==> r->Ok_0 == (UniformWrite {
                program: self.id,
                uniform: Uniform::Matrix4f(name, matrix),
            }),
            r is Err ==> r->Err_0 == RenderError::UniformNotFound(name),
    {
        match self.check_uniform(name) {
            Ok(_) => Ok(UniformWrite { program: self.id, uniform: Uniform::Matrix4f(name, matrix) }),
            Err(e) => Err(e),
        }
    }

    pub fn set_uniform_vec4(&self, name: UniformName, vec4: Vec4Fx) -> (r: Result<
        UniformWrite,
        RenderError,
    >)
        ensures
            r is Ok <==> self.spec_has_uniform(name),
            r is Ok ==> r->Ok_0 == (UniformWrite {
                program: self.id,
                uniform: Uniform::Vec4(name, vec4),
            }),
            r is Err ==> r->Err_0 == RenderError::UniformNotFound(name),
    {
        match self.check_uniform(name) {
            Ok(_) => Ok(UniformWrite { program: self.id, uniform: Uniform::Vec4(name, vec4) }),
            Err(e) => Err(e),
        }
    }

    pub fn set_uniform_int(&self, name: UniformName, value: i32) -> (r: Result<
        UniformWrite,
        RenderError,
    >)
        ensures
            r is Ok <==> self.spec_has_uniform(name),
            r is Ok ==> r->Ok_0 == (UniformWrite {
                program: self.id,
                uniform: Uniform::Int(name, value),
            }),
            r is Err ==> r->Err_0 == RenderError::UniformNotFound(name),
    {
        match self.check_uniform(name) {
            Ok(_) => Ok(UniformWrite { program: self.id, uniform: Uniform::Int(name, value) }),
            Err(e) => Err(e),
        }
    }

    pub fn set_uniform_float(&self, name: UniformName, value: i64) -> (r: Result<
        UniformWrite,
        RenderError,
    >)
        ensures
            r is Ok <==> self.spec_has_uniform(name),
            r is Ok ==> r->Ok_0 == (UniformWrite {
                program: self.id,
                uniform: Uniform::Float(name, value),
            }),
            r is Err ==> r->Err_0 == RenderError::UniformNotFound(name),
    {
        match self.check_uniform(name) {
            Ok(_) => Ok(UniformWrite { program: self.id, uniform: Uniform::Float(name, value) }),
            Err(e) => Err(e),
        }
    }
}

/// Where a program build stands.
#[derive(Clone, Copy, PartialEq, Eq, Structural, Debug)]
pub enum BuildPhase {
    /// Waiting for the vertex stage compile outcome.
    CompilingVertex,
    /// Waiting for the fragment stage compile outcome.
    CompilingFragment { vertex_id: u32 },
    /// Both stages compiled; waiting for the link outcome.
    Linking { vertex_id: u32, fragment_id: u32 },
    /// Linked; waiting for the stage objects to be detached and deleted.
    Releasing { vertex_id: u32, fragment_id: u32 },
    /// Fully built: the program is the sole long-lived artifact.
    Done,
    /// A stage failed to compile or the program failed to link.
    Failed,
}

/// The next piece of GPU work a build needs.
#[derive(Debug)]
pub enum BuildAction {
    /// Compile one stage from source.
    Compile(CompileRequest),
    /// Attach both compiled stages to the program and link it.
    AttachAndLink { program: u32, vertex_id: u32, fragment_id: u32 },
    /// Detach and delete both stage objects; the program keeps working.
    DetachAndDelete { program: u32, vertex_id: u32, fragment_id: u32 },
    /// Nothing left to do: the build is done or has failed.
    Idle,
}

/// What the GPU reported about the action that was submitted.
#[derive(Debug)]
pub enum GpuEvent {
    /// A stage compiled; carries the new shader object handle.
    CompileOk { shader_id: u32 },
    /// A stage failed to compile; carries the diagnostic log.
    CompileFail { log: String },
    /// The program linked.
    LinkOk,
    /// The program failed to link; carries the diagnostic log.
    LinkFail { log: String },
    /// The stage objects were detached and deleted.
    Released,
}

/// A program build in progress: compile the vertex stage, compile the
/// fragment stage, link, then release both stage objects.
#[derive(Debug)]
pub struct ProgramBuilder {
    pub program_id: u32,
    pub vertex_shader: Shader,
    pub fragment_shader: Shader,
    pub uniforms: Vec<UniformName>,
    pub phase: BuildPhase,
}

/// Whether an event answers the GPU work the phase is waiting for.
pub open spec fn spec_expects(phase: BuildPhase, event: GpuEvent) -> bool {
    match phase {
        BuildPhase::CompilingVertex => event is CompileOk || event is CompileFail,
        BuildPhase::CompilingFragment { .. } => event is CompileOk || event is CompileFail,
        BuildPhase::Linking { .. } => event is LinkOk || event is LinkFail,
        BuildPhase::Releasing { .. } => event is Released,
        BuildPhase::Done => false,
        BuildPhase::Failed => false,
    }
}

/// The transition relation of the build protocol: the builder after the
/// event, and what `step` reports.
pub open spec fn spec_step(b: ProgramBuilder, event: GpuEvent) -> (ProgramBuilder, Result<
    (),
    RenderError,
>) {
    match (b.phase, event) {
        (BuildPhase::CompilingVertex, GpuEvent::CompileOk { shader_id }) => (
            ProgramBuilder { phase: BuildPhase::CompilingFragment { vertex_id: shader_id }, ..b },
            Ok(()),
        ),
        (BuildPhase::CompilingVertex, GpuEvent::CompileFail { log }) => (
            ProgramBuilder { phase: BuildPhase::Failed, ..b },
            Err(RenderError::CompileError(log)),
        ),
        (BuildPhase::CompilingFragment { vertex_id }, GpuEvent::CompileOk { shader_id }) => (
            ProgramBuilder {
                phase: BuildPhase::Linking { vertex_id, fragment_id: shader_id },
                ..b
            },
            Ok(()),
        ),
        (BuildPhase::CompilingFragment { .. }, GpuEvent::CompileFail { log }) => (
            ProgramBuilder { phase: BuildPhase::Failed, ..b },
            Err(RenderError::CompileError(log)),
        ),
        (BuildPhase::Linking { vertex_id, fragment_id }, GpuEvent::LinkOk) => (
            ProgramBuilder { phase: BuildPhase::Releasing { vertex_id, fragment_id }, ..b },
            Ok(()),
        ),
        (BuildPhase::Linking { .. }, GpuEvent::LinkFail { log }) => (
            ProgramBuilder { phase: BuildPhase::Failed, ..b },
            Err(RenderError::LinkError(log)),
        ),
        (BuildPhase::Releasing { .. }, GpuEvent::Released) => (
            ProgramBuilder { phase: BuildPhase::Done, ..b },
            Ok(()),
        ),
        _ => (b, Ok(())),
    }
}

/// The GPU work each phase is waiting on.
pub open spec fn spec_next_action(b: ProgramBuilder) -> BuildAction {
    match b.phase {
        BuildPhase::CompilingVertex => BuildAction::Compile(
            CompileRequest { stage: b.vertex_shader.stage, source: b.vertex_shader.source },
        ),
        BuildPhase::CompilingFragment { .. } => BuildAction::Compile(
            CompileRequest { stage: b.fragment_shader.stage, source: b.fragment_shader.source },
        ),
        BuildPhase::Linking { vertex_id, fragment_id } => BuildAction::AttachAndLink {
            program: b.program_id,
            vertex_id,
            fragment_id,
        },
        BuildPhase::Releasing { vertex_id, fragment_id } => BuildAction::DetachAndDelete {
            program: b.program_id,
            vertex_id,
            fragment_id,
        },
        BuildPhase::Done => BuildAction::Idle,
        BuildPhase::Failed => BuildAction::Idle,
    }
}

impl ProgramBuilder {
    /// Start building: the program handle was created, nothing is compiled
    /// yet. `uniforms` is the uniform interface the two sources declare.
    pub fn new(
        program_id: u32,
        vertex_shader: Shader,
        fragment_shader: Shader,
        uniforms: Vec<UniformName>,
    ) -> (r: Self)
        ensures
            r == (ProgramBuilder {
                program_id,
                vertex_shader,
                fragment_shader,
                uniforms,
                phase: BuildPhase::CompilingVertex,
            }),
    {
        ProgramBuilder {
            program_id,
            vertex_shader,
            fragment_shader,
            uniforms,
            phase: BuildPhase::CompilingVertex,
        }
    }

    /// The next piece of GPU work the embedding must perform.
    pub fn next_action(&self) -> (r: BuildAction)
        ensures
            r == spec_next_action(*self),
    {
        match self.phase {
            BuildPhase::CompilingVertex => BuildAction::Compile(self.vertex_shader.compile()),
            BuildPhase::CompilingFragment { .. } => BuildAction::Compile(
                self.fragment_shader.compile(),
            ),
            BuildPhase::Linking { vertex_id, fragment_id } => BuildAction::AttachAndLink {
                program: self.program_id,
                vertex_id,
                fragment_id,
            },
            BuildPhase::Releasing { vertex_id, fragment_id } => BuildAction::DetachAndDelete {
                program: self.program_id,
                vertex_id,
                fragment_id,
            },
            BuildPhase::Done => BuildAction::Idle,
            BuildPhase::Failed => BuildAction::Idle,
        }
    }

    /// Consume the GPU's answer to the pending action. A failed compile or
    /// link moves the build to [`BuildPhase::Failed`] and surfaces the
    /// diagnostic log; nothing is retried.
    pub fn step(&mut self, event: GpuEvent) -> (r: Result<(), RenderError>)
        requires
            spec_expects(old(self).phase, event),
        ensures
            *final(self) == spec_step(*old(self), event).0,
            r == spec_step(*old(self), event).1,
    {
        match (self.phase, event) {
            (BuildPhase::CompilingVertex, GpuEvent::CompileOk { shader_id }) => {
                self.phase = BuildPhase::CompilingFragment { vertex_id: shader_id };
                Ok(())
            },
            (BuildPhase::CompilingVertex, GpuEvent::CompileFail { log }) => {
                self.phase = BuildPhase::Failed;
                Err(RenderError::CompileError(log))
            },
            (BuildPhase::CompilingFragment { vertex_id }, GpuEvent::CompileOk { shader_id }) => {
                self.phase = BuildPhase::Linking { vertex_id, fragment_id: shader_id };
                Ok(())
            },
            (BuildPhase::CompilingFragment { .. }, GpuEvent::CompileFail { log }) => {
                self.phase = BuildPhase::Failed;
                Err(RenderError::CompileError(log))
            },
            (BuildPhase::Linking { vertex_id, fragment_id }, GpuEvent::LinkOk) => {
                self.phase = BuildPhase::Releasing { vertex_id, fragment_id };
                Ok(())
            },
            (BuildPhase::Linking { .. }, GpuEvent::LinkFail { log }) => {
                self.phase = BuildPhase::Failed;
                Err(RenderError::LinkError(log))
            },
            (BuildPhase::Releasing { .. }, GpuEvent::Released) => {
                self.phase = BuildPhase::Done;
                Ok(())
            },
            _ => unreached(),
        }
    }

    /// Hand out the finished program. Only a fully built program — linked,
    /// with both stage objects released — can be taken.
    pub fn finish(self) -> (r: ShaderProgram)
        requires
            self.phase is Done,
        ensures
            r.id == self.program_id,
            r.uniforms == self.uniforms,
    {
        ShaderProgram { id: self.program_id, uniforms: self.uniforms }
    }
}

/// The happy path of the build protocol: from a fresh builder, the event
/// sequence compile-ok, compile-ok, link-ok, released reaches `Done` without
/// an error, leaves the program handle untouched, and along the way asks the
/// GPU for exactly: compile the vertex source, compile the fragment source,
/// attach-and-link both stages, and detach-and-delete both stages — the
/// link-then-discard lifecycle.
pub proof fn lemma_build_happy_path(b0: ProgramBuilder, vs_id: u32, fs_id: u32)
    requires
        b0.phase is CompilingVertex,
    ensures
        ({
            let (b1, r1) = spec_step(b0, GpuEvent::CompileOk { shader_id: vs_id });
            let (b2, r2) = spec_step(b1, GpuEvent::CompileOk { shader_id: fs_id });
            let (b3, r3) = spec_step(b2, GpuEvent::LinkOk);
            let (b4, r4) = spec_step(b3, GpuEvent::Released);
            &&& r1 == Ok::<(), RenderError>(()) && r2 == Ok::<(), RenderError>(()) && r3 == Ok::<
                (),
                RenderError,
            >(()) && r4 == Ok::<(), RenderError>(())
            &&& spec_next_action(b0) == BuildAction::Compile(
                CompileRequest { stage: b0.vertex_shader.stage, source: b0.vertex_shader.source },
            )
            &&& spec_next_action(b1) == BuildAction::Compile(
                CompileRequest {
                    stage: b0.fragment_shader.stage,
                    source: b0.fragment_shader.source,
                },
            )
            &&& spec_next_action(b2) == (BuildAction::AttachAndLink {
                program: b0.program_id,
                vertex_id: vs_id,
                fragment_id: fs_id,
            })
            &&& spec_next_action(b3) == (BuildAction::DetachAndDelete {
                program: b0.program_id,
                vertex_id: vs_id,
                fragment_id: fs_id,
            })
            &&& b4.phase is Done
            &&& b4.program_id == b0.program_id
            &&& b4.uniforms == b0.uniforms
        }),
{
}

} // verus!
