//! What holds of every program and shader build, whatever the driver replies.
//!
//! A build is run on a sequence of replies: each reply answers the call that
//! the build waits on at that point. The exchanges of a run are the pairs of
//! call and reply made before the build finished.
use vstd::prelude::*;
use crate::calls::{GlCall, Reply, FRAGMENT_SHADER, LINK_STATUS};
use crate::error::BuildError;
use crate::handles::{status_ok, ShaderType};
use crate::program_build::{ProgramBuild, ProgramStep};
use crate::shader_build::{shader_allocated, ShaderBuild, ShaderStep};

verus! {

/// The build after it has been handed `replies` in order.
pub open spec fn run(b: ProgramBuild, replies: Seq<Reply>) -> ProgramBuild
    decreases replies.len(),
{
    if replies.len() == 0 {
        b
    } else {
        run(b, replies.drop_last()).after(replies.last())
    }
}

/// The calls issued and the replies they got, in order, until the build finished.
pub open spec fn exchanges(b: ProgramBuild, replies: Seq<Reply>) -> Seq<(GlCall, Reply)>
    decreases replies.len(),
{
    if replies.len() == 0 {
        seq![]
    } else {
        let t = exchanges(b, replies.drop_last());
        match run(b, replies.drop_last()).pending() {
            Some(c) => t.push((c, replies.last())),
            None => t,
        }
    }
}

/// Whether an exchange allocated a program name.
pub open spec fn program_allocated(c: GlCall, r: Reply) -> bool {
    c is CreateProgram && (r matches Reply::Name(n) && n != 0)
}

/// How many shader names the exchanges allocated.
pub open spec fn shader_allocations(t: Seq<(GlCall, Reply)>) -> nat
    decreases t.len(),
{
    if t.len() == 0 {
        0
    } else {
        shader_allocations(t.drop_last()) + if shader_allocated(t.last().0, t.last().1) {
            1nat
        } else {
            0nat
        }
    }
}

/// How many shader delete calls the exchanges hold.
pub open spec fn shader_releases(t: Seq<(GlCall, Reply)>) -> nat
    decreases t.len(),
{
    if t.len() == 0 {
        0
    } else {
        shader_releases(t.drop_last()) + if t.last().0 is DeleteShader {
            1nat
        } else {
            0nat
        }
    }
}

/// How many program names the exchanges allocated.
pub open spec fn program_allocations(t: Seq<(GlCall, Reply)>) -> nat
    decreases t.len(),
{
    if t.len() == 0 {
        0
    } else {
        program_allocations(t.drop_last()) + if program_allocated(t.last().0, t.last().1) {
            1nat
        } else {
            0nat
        }
    }
}

/// How many program delete calls the exchanges hold.
pub open spec fn program_releases(t: Seq<(GlCall, Reply)>) -> nat
    decreases t.len(),
{
    if t.len() == 0 {
        0
    } else {
        program_releases(t.drop_last()) + if t.last().0 is DeleteProgram {
            1nat
        } else {
            0nat
        }
    }
}

/// Whether any exchange asked for a fragment shader.
pub open spec fn creates_fragment(t: Seq<(GlCall, Reply)>) -> bool
    decreases t.len(),
{
    t.len() > 0 && (creates_fragment(t.drop_last()) || t.last().0 == (GlCall::CreateShader {
        kind: FRAGMENT_SHADER,
    }))
}

/// An error met before the fragment stage begins.
pub open spec fn early_error(e: BuildError) -> bool {
    e is ProgramAllocation || e matches BuildError::ShaderAllocation(ShaderType::Vertex)
        || e matches BuildError::Compile { stage: ShaderType::Vertex, .. }
}

/// Whether the build has not yet reached the fragment stage, and never will.
pub open spec fn before_fragment(b: ProgramBuild) -> bool {
    match b.step {
        ProgramStep::Create => true,
        ProgramStep::Vertex(..) => true,
        ProgramStep::DropProgram(_, e) => early_error(e),
        ProgramStep::Finished(Err(e)) => early_error(e),
        _ => false,
    }
}

/// Whether the last exchange was a link status query on `p` that reported success.
pub open spec fn ends_with_link_success(t: Seq<(GlCall, Reply)>, p: u32) -> bool {
    t.len() > 0 && t.last().0 == (GlCall::ProgramParam { program: p, pname: LINK_STATUS })
        && (t.last().1 matches Reply::Param(v) && status_ok(v))
}

/// One step of a program build keeps it well formed, and changes the names it
/// holds only by what the pending call allocated or released.
proof fn lemma_program_step(b: ProgramBuild, reply: Reply)
    requires
        b.wf(),
    ensures
        b.after(reply).wf(),
        b.pending() is None <==> b.finished(),
        b.finished() ==> b.after(reply) == b,
        b.pending() matches Some(c) ==> b.after(reply).live_shaders() + (if c is DeleteShader {
            1nat
        } else {
            0nat
        }) == b.live_shaders() + (if shader_allocated(c, reply) {
            1nat
        } else {
            0nat
        }),
        b.pending() matches Some(c) ==> b.after(reply).live_programs() + (
        if c is DeleteProgram {
            1nat
        } else {
            0nat
        }) == b.live_programs() + (if program_allocated(c, reply) {
            1nat
        } else {
            0nat
        }),
        !b.finished() && before_fragment(b.after(reply)) ==> before_fragment(b) && b.pending()
            != Some(GlCall::CreateShader { kind: FRAGMENT_SHADER }),
        !b.finished() ==> (b.after(reply).step matches ProgramStep::Finished(Ok(p)) ==> (
        b.step == ProgramStep::Status(p.prog_id) && (reply matches Reply::Param(v) && status_ok(
            v,
        )))),
{
    match b.step {
        ProgramStep::Vertex(_, sb) => {
            sb.lemma_step(reply);
        },
        ProgramStep::Fragment(_, _, sb) => {
            sb.lemma_step(reply);
        },
        _ => {},
    }
}

/// What every run from a fresh build keeps: it stays well formed, and each
/// name allocated is either released or still held.
proof fn lemma_run(b: ProgramBuild, replies: Seq<Reply>)
    requires
        b.step is Create,
    ensures
        run(b, replies).wf(),
        shader_allocations(exchanges(b, replies)) == shader_releases(exchanges(b, replies))
            + run(b, replies).live_shaders(),
        program_allocations(exchanges(b, replies)) == program_releases(exchanges(b, replies))
            + run(b, replies).live_programs(),
        run(b, replies).step matches ProgramStep::Finished(Ok(p)) ==> ends_with_link_success(
            exchanges(b, replies),
            p.prog_id,
        ),
        before_fragment(run(b, replies)) ==> !creates_fragment(exchanges(b, replies)),
    decreases replies.len(),
{
    if replies.len() > 0 {
        let prev = replies.drop_last();
        lemma_run(b, prev);
        let s = run(b, prev);
        let t = exchanges(b, prev);
        lemma_program_step(s, replies.last());
        match s.pending() {
            Some(c) => {
                let t2 = t.push((c, replies.last()));
                assert(t2.drop_last() =~= t);
            },
            None => {},
        }
    }
}

/// No shader leaks: once a build has finished, whichever way, it has issued
/// exactly as many shader delete calls as shaders the driver allocated for it.
pub proof fn lemma_no_leaked_shaders(b: ProgramBuild, replies: Seq<Reply>)
    requires
        b.step is Create,
    ensures
        run(b, replies).finished() ==> shader_allocations(exchanges(b, replies))
            == shader_releases(exchanges(b, replies)),
{
    lemma_run(b, replies);
}

/// A finished build either hands out a program or reports an error, never
/// both: a program only when the last exchange was a link status query on it
/// that reported success, with a real name, still allocated; after an error
/// every program it allocated has been released.
pub proof fn lemma_exclusive_outcome(b: ProgramBuild, replies: Seq<Reply>)
    requires
        b.step is Create,
    ensures
        run(b, replies).step matches ProgramStep::Finished(Ok(p)) ==> p.prog_id != 0
            && ends_with_link_success(exchanges(b, replies), p.prog_id) && program_allocations(
            exchanges(b, replies),
        ) == program_releases(exchanges(b, replies)) + 1,
        run(b, replies).step matches ProgramStep::Finished(Err(_)) ==> program_allocations(
            exchanges(b, replies),
        ) == program_releases(exchanges(b, replies)),
{
    lemma_run(b, replies);
}

/// A build that fails before its fragment stage (no program, or a vertex
/// stage that could not be allocated or compiled) never asks the driver for a
/// fragment shader, so none is compiled.
pub proof fn lemma_vertex_failure_skips_fragment(b: ProgramBuild, replies: Seq<Reply>)
    requires
        b.step is Create,
    ensures
        run(b, replies).step matches ProgramStep::Finished(Err(e)) && early_error(e)
            ==> !creates_fragment(exchanges(b, replies)),
{
    lemma_run(b, replies);
}

/// A shader build after it has been handed `replies` in order.
pub open spec fn shader_run(b: ShaderBuild, replies: Seq<Reply>) -> ShaderBuild
    decreases replies.len(),
{
    if replies.len() == 0 {
        b
    } else {
        shader_run(b, replies.drop_last()).after(replies.last())
    }
}

/// The exchanges of a shader build, until it finished.
pub open spec fn shader_exchanges(b: ShaderBuild, replies: Seq<Reply>) -> Seq<(GlCall, Reply)>
    decreases replies.len(),
{
    if replies.len() == 0 {
        seq![]
    } else {
        let t = shader_exchanges(b, replies.drop_last());
        match shader_run(b, replies.drop_last()).pending() {
            Some(c) => t.push((c, replies.last())),
            None => t,
        }
    }
}

proof fn lemma_shader_run(b: ShaderBuild, replies: Seq<Reply>)
    requires
        b.step is Create,
    ensures
        shader_run(b, replies).wf(),
        shader_allocations(shader_exchanges(b, replies)) == shader_releases(
            shader_exchanges(b, replies),
        ) + shader_run(b, replies).live_shaders(),
    decreases replies.len(),
{
    if replies.len() > 0 {
        let prev = replies.drop_last();
        lemma_shader_run(b, prev);
        let s = shader_run(b, prev);
        s.lemma_step(replies.last());
        match s.pending() {
            Some(c) => {
                let t = shader_exchanges(b, prev);
                assert(t.push((c, replies.last())).drop_last() =~= t);
            },
            None => {},
        }
    }
}

/// A shader build that fails has released the shader it allocated, if any;
/// one that succeeds holds exactly the shader it returns.
pub proof fn lemma_shader_build_releases(b: ShaderBuild, replies: Seq<Reply>)
    requires
        b.step is Create,
    ensures
        shader_run(b, replies).step matches ShaderStep::Finished(Err(_)) ==> shader_allocations(
            shader_exchanges(b, replies),
        ) == shader_releases(shader_exchanges(b, replies)),
        shader_run(b, replies).step matches ShaderStep::Finished(Ok(sh)) ==> sh.0 != 0
            && shader_allocations(shader_exchanges(b, replies)) == shader_releases(
            shader_exchanges(b, replies),
        ) + 1,
{
    lemma_shader_run(b, replies);
}

} // verus!
