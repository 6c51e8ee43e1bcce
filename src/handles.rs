//! Typed handles over the driver's four object kinds.
//!
//! A handle is made only from a name that the driver actually allocated (never
//! 0). Every operation on a handle is described as the `GlCall` that carries it
//! out, with the symbolic kinds mapped to the driver's constants here and
//! nowhere else.
use vstd::prelude::*;
use vstd::slice::slice_to_vec;
use crate::calls::{
    GlCall, ARRAY_BUFFER, COMPILE_STATUS, ELEMENT_ARRAY_BUFFER, FILL, FRAGMENT_SHADER,
    FRONT_AND_BACK, GL_TRUE, LINE, LINK_STATUS, POINT, VERTEX_SHADER, COLOR_BUFFER_BIT,
};

verus! {

/// A vertex array object.
#[derive(Debug, PartialEq, Eq, Structural)]
pub struct VertexArray(pub u32);

/// The two targets a buffer is bound to.
#[derive(Clone, Copy, PartialEq, Eq, Structural, Debug)]
pub enum BufferType {
    Array,
    ElementArray,
}

/// A buffer object.
#[derive(Debug, PartialEq, Eq, Structural)]
pub struct Buffer(pub u32);

/// The two shader stages a program is built from.
#[derive(Clone, Copy, PartialEq, Eq, Structural, Debug)]
pub enum ShaderType {
    Vertex,
    Fragment,
}

/// One compiled (or compiling) shader stage.
#[derive(Debug, PartialEq, Eq, Structural)]
pub struct Shader(pub u32);

/// A linked program, ready to be made current.
#[derive(Debug, PartialEq, Eq, Structural)]
pub struct ShaderProgram {
    pub prog_id: u32,
}

/// How polygons are rasterised.
#[derive(Clone, Copy, PartialEq, Eq, Structural, Debug)]
pub enum PolygonMode {
    /// Just show the points.
    Point,
    /// Just show the lines.
    Line,
    /// Fill in the polygons.
    Fill,
}

impl BufferType {
    pub open spec fn spec_gl_enum(self) -> u32 {
        match self {
            BufferType::Array => ARRAY_BUFFER,
            BufferType::ElementArray => ELEMENT_ARRAY_BUFFER,
        }
    }

    /// The driver's binding target for this kind.
    pub fn gl_enum(self) -> (r: u32)
        ensures
            r == self.spec_gl_enum(),
    {
        match self {
            BufferType::Array => ARRAY_BUFFER,
            BufferType::ElementArray => ELEMENT_ARRAY_BUFFER,
        }
    }
}

impl ShaderType {
    pub open spec fn spec_gl_enum(self) -> u32 {
        match self {
            ShaderType::Vertex => VERTEX_SHADER,
            ShaderType::Fragment => FRAGMENT_SHADER,
        }
    }

    /// The driver's constant for this stage.
    pub fn gl_enum(self) -> (r: u32)
        ensures
            r == self.spec_gl_enum(),
    {
        match self {
            ShaderType::Vertex => VERTEX_SHADER,
            ShaderType::Fragment => FRAGMENT_SHADER,
        }
    }
}

impl PolygonMode {
    pub open spec fn spec_gl_enum(self) -> u32 {
        match self {
            PolygonMode::Point => POINT,
            PolygonMode::Line => LINE,
            PolygonMode::Fill => FILL,
        }
    }

    /// The driver's constant for this mode.
    pub fn gl_enum(self) -> (r: u32)
        ensures
            r == self.spec_gl_enum(),
    {
        match self {
            PolygonMode::Point => POINT,
            PolygonMode::Line => LINE,
            PolygonMode::Fill => FILL,
        }
    }
}

impl VertexArray {
    /// Wraps the name that `GlCall::GenVertexArray` returned; `None` when the
    /// driver could not allocate one (name 0).
    pub fn new(id: u32) -> (r: Option<VertexArray>)
        ensures
            id == 0 ==> r is None,
            id != 0 ==> (r matches Some(v) && v.0 == id),
    {
        if id != 0 {
            Some(VertexArray(id))
        } else {
            None
        }
    }

    /// Makes this the current vertex array.
    pub fn bind(&self) -> (r: GlCall)
        ensures
            r == (GlCall::BindVertexArray { array: self.0 }),
    {
        GlCall::BindVertexArray { array: self.0 }
    }

    /// Leaves no vertex array current.
    pub fn clear_binding(&self) -> (r: GlCall)
        ensures
            r == (GlCall::BindVertexArray { array: 0 }),
    {
        GlCall::BindVertexArray { array: 0 }
    }
}

impl Buffer {
    /// Wraps the name that `GlCall::GenBuffer` returned; `None` when the
    /// driver could not allocate one (name 0).
    pub fn new(id: u32) -> (r: Option<Buffer>)
        ensures
            id == 0 ==> r is None,
            id != 0 ==> (r matches Some(b) && b.0 == id),
    {
        if id != 0 {
            Some(Buffer(id))
        } else {
            None
        }
    }

    /// Makes this the current buffer of the given kind.
    pub fn bind(&self, ty: BufferType) -> (r: GlCall)
        ensures
            r == (GlCall::BindBuffer { target: ty.spec_gl_enum(), buffer: self.0 }),
    {
        GlCall::BindBuffer { target: ty.gl_enum(), buffer: self.0 }
    }

    /// Leaves no buffer of the given kind current.
    pub fn clear_binding(ty: BufferType) -> (r: GlCall)
        ensures
            r == (GlCall::BindBuffer { target: ty.spec_gl_enum(), buffer: 0 }),
    {
        GlCall::BindBuffer { target: ty.gl_enum(), buffer: 0 }
    }
}

/// Copies `data` into the buffer currently bound to `ty`. A buffer of that kind
/// must be bound when the call is performed.
pub fn buffer_data(ty: BufferType, data: &[u8], usage: u32) -> (r: GlCall)
    ensures
        r matches GlCall::BufferData { target, data: d, usage: u } && target
            == ty.spec_gl_enum() && d@ == data@ && u == usage,
{
    GlCall::BufferData { target: ty.gl_enum(), data: slice_to_vec(data), usage }
}

/// True when an integer status query reported `GL_TRUE`.
pub open spec fn status_ok(status: i32) -> bool {
    status == GL_TRUE
}

impl Shader {
    /// Asks the driver for a new shader of the given stage.
    pub fn create(ty: ShaderType) -> (r: GlCall)
        ensures
            r == (GlCall::CreateShader { kind: ty.spec_gl_enum() }),
    {
        GlCall::CreateShader { kind: ty.gl_enum() }
    }

    /// Wraps the name that `GlCall::CreateShader` returned; `None` when the
    /// driver could not allocate one (name 0).
    pub fn new(id: u32) -> (r: Option<Shader>)
        ensures
            id == 0 ==> r is None,
            id != 0 ==> (r matches Some(s) && s.0 == id),
    {
        if id != 0 {
            Some(Shader(id))
        } else {
            None
        }
    }

    /// Replaces the shader's source with `src`.
    pub fn set_source(&self, src: &str) -> (r: GlCall)
        ensures
            r matches GlCall::ShaderSource { shader, source } && shader == self.0 && source@
                == src@,
    {
        GlCall::ShaderSource { shader: self.0, source: src.to_owned() }
    }

    /// Compiles the shader from its current source.
    pub fn compile(&self) -> (r: GlCall)
        ensures
            r == (GlCall::CompileShader { shader: self.0 }),
    {
        GlCall::CompileShader { shader: self.0 }
    }

    /// Queries whether the last compile succeeded; the reply goes to
    /// `Shader::compile_success`.
    pub fn compile_status(&self) -> (r: GlCall)
        ensures
            r == (GlCall::ShaderParam { shader: self.0, pname: COMPILE_STATUS }),
    {
        GlCall::ShaderParam { shader: self.0, pname: COMPILE_STATUS }
    }

    /// Reads the reply to `Shader::compile_status`.
    pub fn compile_success(status: i32) -> (r: bool)
        ensures
            r == status_ok(status),
    {
        status == GL_TRUE
    }

    /// Reads the shader's info log; the bytes go to `decode_log`.
    pub fn info_log(&self) -> (r: GlCall)
        ensures
            r == (GlCall::ShaderInfoLog { shader: self.0 }),
    {
        GlCall::ShaderInfoLog { shader: self.0 }
    }

    /// Marks the shader for deletion, giving up the handle. The driver keeps it
    /// while a program still has it attached.
    pub fn delete(self) -> (r: GlCall)
        ensures
            r == (GlCall::DeleteShader { shader: self.0 }),
    {
        GlCall::DeleteShader { shader: self.0 }
    }
}

impl ShaderProgram {
    /// Asks the driver for a new program.
    pub fn create() -> (r: GlCall)
        ensures
            r == GlCall::CreateProgram,
    {
        GlCall::CreateProgram
    }

    /// Wraps the name that `GlCall::CreateProgram` returned; `None` when the
    /// driver could not allocate one (name 0).
    pub fn new(id: u32) -> (r: Option<ShaderProgram>)
        ensures
            id == 0 ==> r is None,
            id != 0 ==> (r matches Some(p) && p.prog_id == id),
    {
        if id != 0 {
            Some(ShaderProgram { prog_id: id })
        } else {
            None
        }
    }

    /// Attaches a shader to this program.
    pub fn attach_shader(&self, shader: &Shader) -> (r: GlCall)
        ensures
            r == (GlCall::AttachShader { program: self.prog_id, shader: shader.0 }),
    {
        GlCall::AttachShader { program: self.prog_id, shader: shader.0 }
    }

    /// Links the attached shaders into a usable program.
    pub fn link_program(&self) -> (r: GlCall)
        ensures
            r == (GlCall::LinkProgram { program: self.prog_id }),
    {
        GlCall::LinkProgram { program: self.prog_id }
    }

    /// Queries whether the last link succeeded; the reply goes to
    /// `ShaderProgram::link_success`.
    pub fn link_status(&self) -> (r: GlCall)
        ensures
            r == (GlCall::ProgramParam { program: self.prog_id, pname: LINK_STATUS }),
    {
        GlCall::ProgramParam { program: self.prog_id, pname: LINK_STATUS }
    }

    /// Reads the reply to `ShaderProgram::link_status`.
    pub fn link_success(status: i32) -> (r: bool)
        ensures
            r == status_ok(status),
    {
        status == GL_TRUE
    }

    /// Reads the program's info log; the bytes go to `decode_log`.
    pub fn info_log(&self) -> (r: GlCall)
        ensures
            r == (GlCall::ProgramInfoLog { program: self.prog_id }),
    {
        GlCall::ProgramInfoLog { program: self.prog_id }
    }

    /// Makes this the program used for drawing.
    pub fn use_program(&self) -> (r: GlCall)
        ensures
            r == (GlCall::UseProgram { program: self.prog_id }),
    {
        GlCall::UseProgram { program: self.prog_id }
    }

    /// Marks the program for deletion, giving up the handle. The driver keeps it
    /// while it is the current program.
    pub fn delete(self) -> (r: GlCall)
        ensures
            r == (GlCall::DeleteProgram { program: self.prog_id }),
    {
        GlCall::DeleteProgram { program: self.prog_id }
    }
}

/// Sets the front and back polygon mode.
pub fn polygon_mode(mode: PolygonMode) -> (r: GlCall)
    ensures
        r == (GlCall::PolygonMode { face: FRONT_AND_BACK, mode: mode.spec_gl_enum() }),
{
    GlCall::PolygonMode { face: FRONT_AND_BACK, mode: mode.gl_enum() }
}

/// Clears the colour buffer to the current clear colour.
pub fn clear() -> (r: GlCall)
    ensures
        r == (GlCall::Clear { mask: COLOR_BUFFER_BIT }),
{
    GlCall::Clear { mask: COLOR_BUFFER_BIT }
}

} // verus!
