//! Building a program from a vertex and a fragment source.
//!
//! Allocate the program, build the vertex stage, then the fragment stage,
//! attach both, link, release both shaders whatever the link did, and check
//! the link. Every way out releases each shader it allocated; on failure the
//! program is released too, so a failed build leaves nothing behind.
//!
//! Like `ShaderBuild`, this is a state machine driven by `next_call` and
//! `advance`.
use vstd::prelude::*;
use crate::calls::{GlCall, Reply, LINK_STATUS};
use crate::error::BuildError;
use crate::handles::{status_ok, ShaderProgram, ShaderType};
use crate::shader_build::{shader_allocated, ShaderBuild, ShaderStep};

verus! {

/// Where a program build stands. `p` is the program's name, `v` and `f` the
/// names of the vertex and fragment shaders.
#[derive(Debug)]
pub enum ProgramStep {
    Create,
    /// Building the vertex stage.
    Vertex(u32, ShaderBuild),
    /// Building the fragment stage; the vertex shader is `v`.
    Fragment(u32, u32, ShaderBuild),
    AttachVertex(u32, u32, u32),
    AttachFragment(u32, u32, u32),
    Link(u32, u32, u32),
    DeleteVertex(u32, u32, u32),
    DeleteFragment(u32, u32),
    Status(u32),
    Log(u32),
    /// The fragment stage failed: release the vertex shader.
    DropVertex(u32, u32, BuildError),
    /// The build failed: release the program.
    DropProgram(u32, BuildError),
    Finished(Result<ShaderProgram, BuildError>),
}

/// A program build in progress.
#[derive(Debug)]
pub struct ProgramBuild {
    pub vert: String,
    pub frag: String,
    pub step: ProgramStep,
}

impl ProgramBuild {
    pub open spec fn wf(self) -> bool {
        match self.step {
            ProgramStep::Create => true,
            ProgramStep::Vertex(p, sb) => p != 0 && sb.wf() && !sb.finished() && sb.stage
                == ShaderType::Vertex && sb.source == self.vert,
            ProgramStep::Fragment(p, v, sb) => p != 0 && v != 0 && sb.wf() && !sb.finished()
                && sb.stage == ShaderType::Fragment && sb.source == self.frag,
            ProgramStep::AttachVertex(p, v, f) => p != 0 && v != 0 && f != 0,
            ProgramStep::AttachFragment(p, v, f) => p != 0 && v != 0 && f != 0,
            ProgramStep::Link(p, v, f) => p != 0 && v != 0 && f != 0,
            ProgramStep::DeleteVertex(p, v, f) => p != 0 && v != 0 && f != 0,
            ProgramStep::DeleteFragment(p, f) => p != 0 && f != 0,
            ProgramStep::Status(p) => p != 0,
            ProgramStep::Log(p) => p != 0,
            ProgramStep::DropVertex(p, v, e) => p != 0 && v != 0 && (e matches BuildError::ShaderAllocation(
                ShaderType::Fragment,
            ) || e matches BuildError::Compile { stage: ShaderType::Fragment, .. }),
            ProgramStep::DropProgram(p, _) => p != 0,
            ProgramStep::Finished(Ok(prog)) => prog.prog_id != 0,
            ProgramStep::Finished(Err(_)) => true,
        }
    }

    pub open spec fn finished(self) -> bool {
        self.step is Finished
    }

    /// How many shader names this build holds.
    pub open spec fn live_shaders(self) -> nat {
        match self.step {
            ProgramStep::Vertex(_, sb) => sb.live_shaders(),
            ProgramStep::Fragment(_, _, sb) => 1 + sb.live_shaders(),
            ProgramStep::AttachVertex(..) => 2,
            ProgramStep::AttachFragment(..) => 2,
            ProgramStep::Link(..) => 2,
            ProgramStep::DeleteVertex(..) => 2,
            ProgramStep::DeleteFragment(..) => 1,
            ProgramStep::DropVertex(..) => 1,
            _ => 0,
        }
    }

    /// How many program names this build holds (a finished build holds the
    /// one it returns).
    pub open spec fn live_programs(self) -> nat {
        match self.step {
            ProgramStep::Create => 0,
            ProgramStep::Finished(Err(_)) => 0,
            _ => 1,
        }
    }

    /// The driver call that the build waits on; `None` once it has finished.
    pub open spec fn pending(self) -> Option<GlCall> {
        match self.step {
            ProgramStep::Create => Some(GlCall::CreateProgram),
            ProgramStep::Vertex(_, sb) => sb.pending(),
            ProgramStep::Fragment(_, _, sb) => sb.pending(),
            ProgramStep::AttachVertex(p, v, _) => Some(GlCall::AttachShader { program: p, shader: v }),
            ProgramStep::AttachFragment(p, _, f) => Some(
                GlCall::AttachShader { program: p, shader: f },
            ),
            ProgramStep::Link(p, _, _) => Some(GlCall::LinkProgram { program: p }),
            ProgramStep::DeleteVertex(_, v, _) => Some(GlCall::DeleteShader { shader: v }),
            ProgramStep::DeleteFragment(_, f) => Some(GlCall::DeleteShader { shader: f }),
            ProgramStep::Status(p) => Some(GlCall::ProgramParam { program: p, pname: LINK_STATUS }),
            ProgramStep::Log(p) => Some(GlCall::ProgramInfoLog { program: p }),
            ProgramStep::DropVertex(_, v, _) => Some(GlCall::DeleteShader { shader: v }),
            ProgramStep::DropProgram(p, _) => Some(GlCall::DeleteProgram { program: p }),
            ProgramStep::Finished(_) => None,
        }
    }

    /// The build once `reply` answers the pending call.
    pub open spec fn after(self, reply: Reply) -> ProgramBuild {
        let next = |step: ProgramStep| ProgramBuild { step, ..self };
        match self.step {
            ProgramStep::Create => match reply {
                Reply::Name(n) => if n != 0 {
                    next(
                        ProgramStep::Vertex(
                            n,
                            ShaderBuild {
                                stage: ShaderType::Vertex,
                                source: self.vert,
                                step: ShaderStep::Create,
                            },
                        ),
                    )
                } else {
                    next(ProgramStep::Finished(Err(BuildError::ProgramAllocation)))
                },
                _ => self,
            },
            ProgramStep::Vertex(p, sb) => {
                let sb2 = sb.after(reply);
                match sb2.step {
                    ShaderStep::Finished(Ok(sh)) => next(
                        ProgramStep::Fragment(
                            p,
                            sh.0,
                            ShaderBuild {
                                stage: ShaderType::Fragment,
                                source: self.frag,
                                step: ShaderStep::Create,
                            },
                        ),
                    ),
                    ShaderStep::Finished(Err(e)) => next(ProgramStep::DropProgram(p, e)),
                    _ => next(ProgramStep::Vertex(p, sb2)),
                }
            },
            ProgramStep::Fragment(p, v, sb) => {
                let sb2 = sb.after(reply);
                match sb2.step {
                    ShaderStep::Finished(Ok(sh)) => next(ProgramStep::AttachVertex(p, v, sh.0)),
                    ShaderStep::Finished(Err(e)) => next(ProgramStep::DropVertex(p, v, e)),
                    _ => next(ProgramStep::Fragment(p, v, sb2)),
                }
            },
            ProgramStep::AttachVertex(p, v, f) => next(ProgramStep::AttachFragment(p, v, f)),
            ProgramStep::AttachFragment(p, v, f) => next(ProgramStep::Link(p, v, f)),
            ProgramStep::Link(p, v, f) => next(ProgramStep::DeleteVertex(p, v, f)),
            ProgramStep::DeleteVertex(p, _, f) => next(ProgramStep::DeleteFragment(p, f)),
            ProgramStep::DeleteFragment(p, _) => next(ProgramStep::Status(p)),
            ProgramStep::Status(p) => match reply {
                Reply::Param(v) => if status_ok(v) {
                    next(ProgramStep::Finished(Ok(ShaderProgram { prog_id: p })))
                } else {
                    next(ProgramStep::Log(p))
                },
                _ => self,
            },
            ProgramStep::Log(p) => match reply {
                Reply::Log(bytes) => next(ProgramStep::DropProgram(p, BuildError::Link { log: bytes })),
                _ => self,
            },
            ProgramStep::DropVertex(p, _, e) => next(ProgramStep::DropProgram(p, e)),
            ProgramStep::DropProgram(_, e) => next(ProgramStep::Finished(Err(e))),
            ProgramStep::Finished(_) => self,
        }
    }

    /// The driver call to perform next; `None` once the build has finished.
    pub fn next_call(&self) -> (r: Option<GlCall>)
        ensures
            r == self.pending(),
    {
        match &self.step {
            ProgramStep::Create => Some(ShaderProgram::create()),
            ProgramStep::Vertex(_, sb) => sb.next_call(),
            ProgramStep::Fragment(_, _, sb) => sb.next_call(),
            ProgramStep::AttachVertex(p, v, _) => Some(
                GlCall::AttachShader { program: *p, shader: *v },
            ),
            ProgramStep::AttachFragment(p, _, f) => Some(
                GlCall::AttachShader { program: *p, shader: *f },
            ),
            ProgramStep::Link(p, _, _) => Some(GlCall::LinkProgram { program: *p }),
            ProgramStep::DeleteVertex(_, v, _) => Some(GlCall::DeleteShader { shader: *v }),
            ProgramStep::DeleteFragment(_, f) => Some(GlCall::DeleteShader { shader: *f }),
            ProgramStep::Status(p) => Some(
                GlCall::ProgramParam { program: *p, pname: LINK_STATUS },
            ),
            ProgramStep::Log(p) => Some(GlCall::ProgramInfoLog { program: *p }),
            ProgramStep::DropVertex(_, v, _) => Some(GlCall::DeleteShader { shader: *v }),
            ProgramStep::DropProgram(p, _) => Some(GlCall::DeleteProgram { program: *p }),
            ProgramStep::Finished(_) => None,
        }
    }

    /// Hands the build the driver's reply to the pending call.
    pub fn advance(self, reply: Reply) -> (r: ProgramBuild)
        ensures
            r == self.after(reply),
    {
        let ProgramBuild { vert, frag, step } = self;
        let step = match step {
            ProgramStep::Create => match reply {
                Reply::Name(n) => match ShaderProgram::new(n) {
                    Some(prog) => ProgramStep::Vertex(
                        prog.prog_id,
                        ShaderBuild::new(ShaderType::Vertex, vert.clone()),
                    ),
                    None => ProgramStep::Finished(Err(BuildError::ProgramAllocation)),
                },
                _ => ProgramStep::Create,
            },
            ProgramStep::Vertex(p, sb) => {
                let sb2 = sb.advance(reply);
                match sb2.step {
                    ShaderStep::Finished(Ok(sh)) => ProgramStep::Fragment(
                        p,
                        sh.0,
                        ShaderBuild::new(ShaderType::Fragment, frag.clone()),
                    ),
                    ShaderStep::Finished(Err(e)) => ProgramStep::DropProgram(p, e),
                    other => ProgramStep::Vertex(
                        p,
                        ShaderBuild { stage: sb2.stage, source: sb2.source, step: other },
                    ),
                }
            },
            ProgramStep::Fragment(p, v, sb) => {
                let sb2 = sb.advance(reply);
                match sb2.step {
                    ShaderStep::Finished(Ok(sh)) => ProgramStep::AttachVertex(p, v, sh.0),
                    ShaderStep::Finished(Err(e)) => ProgramStep::DropVertex(p, v, e),
                    other => ProgramStep::Fragment(
                        p,
                        v,
                        ShaderBuild { stage: sb2.stage, source: sb2.source, step: other },
                    ),
                }
            },
            ProgramStep::AttachVertex(p, v, f) => ProgramStep::AttachFragment(p, v, f),
            ProgramStep::AttachFragment(p, v, f) => ProgramStep::Link(p, v, f),
            ProgramStep::Link(p, v, f) => ProgramStep::DeleteVertex(p, v, f),
            ProgramStep::DeleteVertex(p, _, f) => ProgramStep::DeleteFragment(p, f),
            ProgramStep::DeleteFragment(p, _) => ProgramStep::Status(p),
            ProgramStep::Status(p) => match reply {
                Reply::Param(v) => if ShaderProgram::link_success(v) {
                    ProgramStep::Finished(Ok(ShaderProgram { prog_id: p }))
                } else {
                    ProgramStep::Log(p)
                },
                _ => ProgramStep::Status(p),
            },
            ProgramStep::Log(p) => match reply {
                Reply::Log(bytes) => ProgramStep::DropProgram(p, BuildError::Link { log: bytes }),
                _ => ProgramStep::Log(p),
            },
            ProgramStep::DropVertex(p, _, e) => ProgramStep::DropProgram(p, e),
            ProgramStep::DropProgram(_, e) => ProgramStep::Finished(Err(e)),
            ProgramStep::Finished(out) => ProgramStep::Finished(out),
        };
        ProgramBuild { vert, frag, step }
    }

    /// Whether the build has finished.
    pub fn is_finished(&self) -> (r: bool)
        ensures
            r == self.finished(),
    {
        match &self.step {
            ProgramStep::Finished(_) => true,
            _ => false,
        }
    }

    /// The result of a finished build; `None` while it still runs.
    pub fn outcome(self) -> (r: Option<Result<ShaderProgram, BuildError>>)
        ensures
            self.step matches ProgramStep::Finished(out) ==> r == Some(out),
            !self.finished() ==> r is None,
    {
        match self.step {
            ProgramStep::Finished(out) => Some(out),
            _ => None,
        }
    }
}

impl ShaderProgram {
    /// Starts building a program from a vertex and a fragment source. Drive the
    /// build with `ProgramBuild::next_call` and `ProgramBuild::advance`.
    pub fn from_vert_frag(vert: &str, frag: &str) -> (r: ProgramBuild)
        ensures
            r.vert@ == vert@,
            r.frag@ == frag@,
            r.step is Create,
            r.wf(),
    {
        ProgramBuild { vert: vert.to_owned(), frag: frag.to_owned(), step: ProgramStep::Create }
    }
}

} // verus!
