//! The raw driver calls that the library asks for, and the driver's replies.
//!
//! The library never talks to the driver itself. It describes each call as a
//! `GlCall`, and whoever owns the context performs it and hands back a `Reply`.
use vstd::prelude::*;

verus! {

/// `GL_ARRAY_BUFFER`
pub const ARRAY_BUFFER: u32 = 0x8892;

/// `GL_ELEMENT_ARRAY_BUFFER`
pub const ELEMENT_ARRAY_BUFFER: u32 = 0x8893;

/// `GL_VERTEX_SHADER`
pub const VERTEX_SHADER: u32 = 0x8B31;

/// `GL_FRAGMENT_SHADER`
pub const FRAGMENT_SHADER: u32 = 0x8B30;

/// `GL_COMPILE_STATUS`
pub const COMPILE_STATUS: u32 = 0x8B81;

/// `GL_LINK_STATUS`
pub const LINK_STATUS: u32 = 0x8B82;

/// `GL_TRUE`, as the driver reports it through an integer parameter query.
pub const GL_TRUE: i32 = 1;

/// `GL_POINT`
pub const POINT: u32 = 0x1B00;

/// `GL_LINE`
pub const LINE: u32 = 0x1B01;

/// `GL_FILL`
pub const FILL: u32 = 0x1B02;

/// `GL_FRONT_AND_BACK`
pub const FRONT_AND_BACK: u32 = 0x0408;

/// `GL_COLOR_BUFFER_BIT`
pub const COLOR_BUFFER_BIT: u32 = 0x4000;

/// `GL_STATIC_DRAW`
pub const STATIC_DRAW: u32 = 0x88E4;

/// One call into the graphics driver, with every argument as the driver takes it.
#[derive(Clone, Debug, PartialEq, Eq)]
pub enum GlCall {
    /// `glGenVertexArrays` for one name; replied to with `Reply::Name`.
    GenVertexArray,
    /// `glBindVertexArray`
    BindVertexArray { array: u32 },
    /// `glGenBuffers` for one name; replied to with `Reply::Name`.
    GenBuffer,
    /// `glBindBuffer`
    BindBuffer { target: u32, buffer: u32 },
    /// `glBufferData` on the buffer bound to `target`.
    BufferData { target: u32, data: Vec<u8>, usage: u32 },
    /// `glCreateShader`; replied to with `Reply::Name`.
    CreateShader { kind: u32 },
    /// `glShaderSource` with one string.
    ShaderSource { shader: u32, source: String },
    /// `glCompileShader`
    CompileShader { shader: u32 },
    /// `glGetShaderiv`; replied to with `Reply::Param`.
    ShaderParam { shader: u32, pname: u32 },
    /// `glGetShaderInfoLog` for the whole log; replied to with `Reply::Log`.
    ShaderInfoLog { shader: u32 },
    /// `glDeleteShader`
    DeleteShader { shader: u32 },
    /// `glCreateProgram`; replied to with `Reply::Name`.
    CreateProgram,
    /// `glAttachShader`
    AttachShader { program: u32, shader: u32 },
    /// `glLinkProgram`
    LinkProgram { program: u32 },
    /// `glGetProgramiv`; replied to with `Reply::Param`.
    ProgramParam { program: u32, pname: u32 },
    /// `glGetProgramInfoLog` for the whole log; replied to with `Reply::Log`.
    ProgramInfoLog { program: u32 },
    /// `glUseProgram`
    UseProgram { program: u32 },
    /// `glDeleteProgram`
    DeleteProgram { program: u32 },
    /// `glPolygonMode`
    PolygonMode { face: u32, mode: u32 },
    /// `glClear`
    Clear { mask: u32 },
}

/// What the driver handed back for a call.
#[derive(Debug, PartialEq, Eq)]
pub enum Reply {
    /// The call returns nothing.
    Done,
    /// A new object name; 0 when the driver could not allocate one.
    Name(u32),
    /// The value of an integer parameter query.
    Param(i32),
    /// The bytes of an info log, as many as the driver wrote.
    Log(Vec<u8>),
}

} // verus!
