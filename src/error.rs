//! Why building a shader or a program failed, and the text shown for it.
use vstd::prelude::*;
use vstd::string::StringExecFns;
use crate::handles::ShaderType;

verus! {

/// The text that `String::from_utf8_lossy` makes of a byte sequence.
pub uninterp spec fn lossy_utf8(b: Seq<u8>) -> Seq<char>;

/// Relies on `String::from_utf8_lossy`: the text depends on the bytes alone, and
/// since each invalid sequence becomes U+FFFD, it is empty exactly when the
/// bytes are.
#[verifier::external_body]
fn lossy_text(b: &Vec<u8>) -> (r: String)
    ensures
        r@ == lossy_utf8(b@),
        r@.len() == 0 <==> b@.len() == 0,
{
    String::from_utf8_lossy(b.as_slice()).into_owned()
}

/// A failed build, with the driver's diagnostics as it wrote them.
#[derive(Debug, PartialEq, Eq)]
pub enum BuildError {
    /// The driver gave no name for a new program.
    ProgramAllocation,
    /// The driver gave no name for a new shader of this stage.
    ShaderAllocation(ShaderType),
    /// The stage's source did not compile; `log` holds the driver's info log.
    Compile { stage: ShaderType, log: Vec<u8> },
    /// The stages did not link; `log` holds the program's info log.
    Link { log: Vec<u8> },
}

pub open spec fn stage_name(stage: ShaderType) -> Seq<char> {
    match stage {
        ShaderType::Vertex => "Vertex"@,
        ShaderType::Fragment => "Fragment"@,
    }
}

/// The caller-facing text of an error.
pub open spec fn message_of(e: BuildError) -> Seq<char> {
    match e {
        BuildError::ProgramAllocation => "Couldn't allocate a program"@,
        BuildError::ShaderAllocation(stage) => stage_name(stage) + " Compile Error: "@
            + "Couldn't allocate new shader"@,
        BuildError::Compile { stage, log } => stage_name(stage) + " Compile Error: "@
            + lossy_utf8(log@),
        BuildError::Link { log } => "Program Link Error: "@ + lossy_utf8(log@),
    }
}

fn stage_text(stage: ShaderType) -> (r: String)
    ensures
        r@ == stage_name(stage),
{
    match stage {
        ShaderType::Vertex => String::from_str("Vertex"),
        ShaderType::Fragment => String::from_str("Fragment"),
    }
}

impl BuildError {
    /// The driver's log text, decoded permissively; empty where there is none.
    pub fn log_text(&self) -> (r: String)
        ensures
            self matches BuildError::Compile { log, .. } ==> r@ == lossy_utf8(log@),
            self matches BuildError::Link { log } ==> r@ == lossy_utf8(log@),
            self is ProgramAllocation || self is ShaderAllocation ==> r@.len() == 0,
    {
        match self {
            BuildError::Compile { log, .. } => lossy_text(log),
            BuildError::Link { log } => lossy_text(log),
            _ => String::new(),
        }
    }

    /// `"<Stage> Compile Error: <log>"` or `"Program Link Error: <log>"`.
    pub fn message(&self) -> (r: String)
        ensures
            r@ == message_of(*self),
    {
        match self {
            BuildError::ProgramAllocation => String::from_str("Couldn't allocate a program"),
            BuildError::ShaderAllocation(stage) => {
                let mut s = stage_text(*stage);
                s.append(" Compile Error: ");
                s.append("Couldn't allocate new shader");
                s
            },
            BuildError::Compile { stage, log } => {
                let mut s = stage_text(*stage);
                s.append(" Compile Error: ");
                let text = lossy_text(log);
                s.append(text.as_str());
                s
            },
            BuildError::Link { log } => {
                let mut s = String::from_str("Program Link Error: ");
                let text = lossy_text(log);
                s.append(text.as_str());
                s
            },
        }
    }
}

} // verus!
