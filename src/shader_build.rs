//! Building one shader stage: allocate, set the source, compile, check, and on
//! failure read the log and release the shader.
//!
//! The build is a state machine. `next_call` says which driver call to perform,
//! and `advance` takes the driver's reply to it. A reply of the wrong kind for a
//! call that returns a value is no answer: the state stays and the call is
//! asked for again.
use vstd::prelude::*;
use crate::calls::{GlCall, Reply, COMPILE_STATUS};
use crate::error::BuildError;
use crate::handles::{status_ok, Shader, ShaderType};

verus! {

/// Where a shader build stands; the `u32` is the shader's name.
#[derive(Debug)]
pub enum ShaderStep {
    Create,
    Source(u32),
    Compile(u32),
    Status(u32),
    Log(u32),
    Release(u32, Vec<u8>),
    Finished(Result<Shader, BuildError>),
}

/// A shader build in progress.
#[derive(Debug)]
pub struct ShaderBuild {
    pub stage: ShaderType,
    pub source: String,
    pub step: ShaderStep,
}

impl ShaderBuild {
    pub open spec fn wf(self) -> bool {
        match self.step {
            ShaderStep::Create => true,
            ShaderStep::Source(id) => id != 0,
            ShaderStep::Compile(id) => id != 0,
            ShaderStep::Status(id) => id != 0,
            ShaderStep::Log(id) => id != 0,
            ShaderStep::Release(id, _) => id != 0,
            ShaderStep::Finished(Ok(sh)) => sh.0 != 0,
            ShaderStep::Finished(Err(e)) => match e {
                BuildError::ShaderAllocation(st) => st == self.stage,
                BuildError::Compile { stage, .. } => stage == self.stage,
                _ => false,
            },
        }
    }

    pub open spec fn finished(self) -> bool {
        self.step is Finished
    }

    /// How many shader names this build holds.
    pub open spec fn live_shaders(self) -> nat {
        match self.step {
            ShaderStep::Create => 0,
            ShaderStep::Finished(Ok(_)) => 1,
            ShaderStep::Finished(Err(_)) => 0,
            _ => 1,
        }
    }

    /// The driver call that the build waits on; `None` once it has finished.
    pub open spec fn pending(self) -> Option<GlCall> {
        match self.step {
            ShaderStep::Create => Some(GlCall::CreateShader { kind: self.stage.spec_gl_enum() }),
            ShaderStep::Source(id) => Some(GlCall::ShaderSource { shader: id, source: self.source }),
            ShaderStep::Compile(id) => Some(GlCall::CompileShader { shader: id }),
            ShaderStep::Status(id) => Some(GlCall::ShaderParam { shader: id, pname: COMPILE_STATUS }),
            ShaderStep::Log(id) => Some(GlCall::ShaderInfoLog { shader: id }),
            ShaderStep::Release(id, _) => Some(GlCall::DeleteShader { shader: id }),
            ShaderStep::Finished(_) => None,
        }
    }

    /// The build once `reply` answers the pending call.
    pub open spec fn after(self, reply: Reply) -> ShaderBuild {
        let next = |step: ShaderStep| ShaderBuild { step, ..self };
        match self.step {
            ShaderStep::Create => match reply {
                Reply::Name(n) => if n != 0 {
                    next(ShaderStep::Source(n))
                } else {
                    next(ShaderStep::Finished(Err(BuildError::ShaderAllocation(self.stage))))
                },
                _ => self,
            },
            ShaderStep::Source(id) => next(ShaderStep::Compile(id)),
            ShaderStep::Compile(id) => next(ShaderStep::Status(id)),
            ShaderStep::Status(id) => match reply {
                Reply::Param(v) => if status_ok(v) {
                    next(ShaderStep::Finished(Ok(Shader(id))))
                } else {
                    next(ShaderStep::Log(id))
                },
                _ => self,
            },
            ShaderStep::Log(id) => match reply {
                Reply::Log(bytes) => next(ShaderStep::Release(id, bytes)),
                _ => self,
            },
            ShaderStep::Release(_, log) => next(
                ShaderStep::Finished(Err(BuildError::Compile { stage: self.stage, log })),
            ),
            ShaderStep::Finished(_) => self,
        }
    }

    /// A build that has not asked for anything yet.
    pub fn new(stage: ShaderType, source: String) -> (r: ShaderBuild)
        ensures
            r == (ShaderBuild { stage, source, step: ShaderStep::Create }),
            r.wf(),
    {
        ShaderBuild { stage, source, step: ShaderStep::Create }
    }

    /// The driver call to perform next; `None` once the build has finished.
    pub fn next_call(&self) -> (r: Option<GlCall>)
        ensures
            r == self.pending(),
    {
        match &self.step {
            ShaderStep::Create => Some(Shader::create(self.stage)),
            ShaderStep::Source(id) => Some(
                GlCall::ShaderSource { shader: *id, source: self.source.clone() },
            ),
            ShaderStep::Compile(id) => Some(GlCall::CompileShader { shader: *id }),
            ShaderStep::Status(id) => Some(
                GlCall::ShaderParam { shader: *id, pname: COMPILE_STATUS },
            ),
            ShaderStep::Log(id) => Some(GlCall::ShaderInfoLog { shader: *id }),
            ShaderStep::Release(id, _) => Some(GlCall::DeleteShader { shader: *id }),
            ShaderStep::Finished(_) => None,
        }
    }

    /// Hands the build the driver's reply to the pending call.
    pub fn advance(self, reply: Reply) -> (r: ShaderBuild)
        ensures
            r == self.after(reply),
    {
        let ShaderBuild { stage, source, step } = self;
        let step = match step {
            ShaderStep::Create => match reply {
                Reply::Name(n) => match Shader::new(n) {
                    Some(sh) => ShaderStep::Source(sh.0),
                    None => ShaderStep::Finished(Err(BuildError::ShaderAllocation(stage))),
                },
                _ => ShaderStep::Create,
            },
            ShaderStep::Source(id) => ShaderStep::Compile(id),
            ShaderStep::Compile(id) => ShaderStep::Status(id),
            ShaderStep::Status(id) => match reply {
                Reply::Param(v) => if Shader::compile_success(v) {
                    ShaderStep::Finished(Ok(Shader(id)))
                } else {
                    ShaderStep::Log(id)
                },
                _ => ShaderStep::Status(id),
            },
            ShaderStep::Log(id) => match reply {
                Reply::Log(bytes) => ShaderStep::Release(id, bytes),
                _ => ShaderStep::Log(id),
            },
            ShaderStep::Release(_, log) => ShaderStep::Finished(
                Err(BuildError::Compile { stage, log }),
            ),
            ShaderStep::Finished(out) => ShaderStep::Finished(out),
        };
        ShaderBuild { stage, source, step }
    }

    /// Whether the build has finished.
    pub fn is_finished(&self) -> (r: bool)
        ensures
            r == self.finished(),
    {
        match &self.step {
            ShaderStep::Finished(_) => true,
            _ => false,
        }
    }

    /// The result of a finished build; `None` while it still runs.
    pub fn outcome(self) -> (r: Option<Result<Shader, BuildError>>)
        ensures
            self.step matches ShaderStep::Finished(out) ==> r == Some(out),
            !self.finished() ==> r is None,
    {
        match self.step {
            ShaderStep::Finished(out) => Some(out),
            _ => None,
        }
    }

    /// One step keeps the build well formed, and changes the names it holds
    /// only by what the call allocated or released.
    pub proof fn lemma_step(self, reply: Reply)
        requires
            self.wf(),
        ensures
            self.after(reply).wf(),
            self.after(reply).stage == self.stage,
            self.after(reply).source == self.source,
            self.pending() is None <==> self.finished(),
            self.finished() ==> self.after(reply) == self,
            self.pending() matches Some(c) ==> self.after(reply).live_shaders() + (
            if c is DeleteShader {
                1nat
            } else {
                0nat
            }) == self.live_shaders() + (if shader_allocated(c, reply) {
                1nat
            } else {
                0nat
            }),
    {
    }
}

impl Shader {
    /// Starts building a shader of stage `ty` from `source`. Drive the build
    /// with `ShaderBuild::next_call` and `ShaderBuild::advance`: it ends with the
    /// compiled shader, or with the error and the shader already released.
    pub fn from_source(ty: ShaderType, source: &str) -> (r: ShaderBuild)
        ensures
            r.stage == ty,
            r.source@ == source@,
            r.step is Create,
            r.wf(),
    {
        ShaderBuild::new(ty, source.to_owned())
    }
}

/// Whether an exchange allocated a shader name.
pub open spec fn shader_allocated(c: GlCall, r: Reply) -> bool {
    c is CreateShader && (r matches Reply::Name(n) && n != 0)
}

} // verus!
