use gl_engine::calls::{
    GlCall, ARRAY_BUFFER, COLOR_BUFFER_BIT, COMPILE_STATUS, ELEMENT_ARRAY_BUFFER, FILL,
    FRAGMENT_SHADER, FRONT_AND_BACK, GL_TRUE, LINE, LINK_STATUS, POINT, STATIC_DRAW,
    VERTEX_SHADER,
};
use gl_engine::handles::{
    buffer_data, clear, polygon_mode, Buffer, BufferType, PolygonMode, Shader, ShaderProgram,
    ShaderType, VertexArray,
};

#[test]
fn constants_match_the_driver() {
    assert_eq!(ARRAY_BUFFER, gl::ARRAY_BUFFER);
    assert_eq!(ELEMENT_ARRAY_BUFFER, gl::ELEMENT_ARRAY_BUFFER);
    assert_eq!(VERTEX_SHADER, gl::VERTEX_SHADER);
    assert_eq!(FRAGMENT_SHADER, gl::FRAGMENT_SHADER);
    assert_eq!(COMPILE_STATUS, gl::COMPILE_STATUS);
    assert_eq!(LINK_STATUS, gl::LINK_STATUS);
    assert_eq!(GL_TRUE, i32::from(gl::TRUE));
    assert_eq!(POINT, gl::POINT);
    assert_eq!(LINE, gl::LINE);
    assert_eq!(FILL, gl::FILL);
    assert_eq!(FRONT_AND_BACK, gl::FRONT_AND_BACK);
    assert_eq!(COLOR_BUFFER_BIT, gl::COLOR_BUFFER_BIT);
    assert_eq!(STATIC_DRAW, gl::STATIC_DRAW);
}

#[test]
fn name_zero_gives_no_handle() {
    assert_eq!(VertexArray::new(0), None);
    assert_eq!(Buffer::new(0), None);
    assert_eq!(Shader::new(0), None);
    assert_eq!(ShaderProgram::new(0), None);
}

#[test]
fn live_names_give_handles() {
    assert_eq!(VertexArray::new(3), Some(VertexArray(3)));
    assert_eq!(Buffer::new(4), Some(Buffer(4)));
    assert_eq!(Shader::new(5), Some(Shader(5)));
    assert_eq!(ShaderProgram::new(u32::MAX), Some(ShaderProgram { prog_id: u32::MAX }));
}

#[test]
fn vertex_array_binding() {
    let vao = VertexArray(9);
    assert_eq!(vao.bind(), GlCall::BindVertexArray { array: 9 });
    assert_eq!(vao.clear_binding(), GlCall::BindVertexArray { array: 0 });
}

#[test]
fn buffer_binding_by_kind() {
    let b = Buffer(2);
    assert_eq!(b.bind(BufferType::Array), GlCall::BindBuffer { target: gl::ARRAY_BUFFER, buffer: 2 });
    assert_eq!(
        b.bind(BufferType::ElementArray),
        GlCall::BindBuffer { target: gl::ELEMENT_ARRAY_BUFFER, buffer: 2 }
    );
    assert_eq!(
        Buffer::clear_binding(BufferType::Array),
        GlCall::BindBuffer { target: gl::ARRAY_BUFFER, buffer: 0 }
    );
}

#[test]
fn upload_copies_the_bytes() {
    let bytes = [0u8, 1, 2, 3, 255];
    assert_eq!(
        buffer_data(BufferType::ElementArray, &bytes, gl::STATIC_DRAW),
        GlCall::BufferData { target: gl::ELEMENT_ARRAY_BUFFER, data: bytes.to_vec(), usage: gl::STATIC_DRAW }
    );
    assert_eq!(
        buffer_data(BufferType::Array, &[], gl::DYNAMIC_DRAW),
        GlCall::BufferData { target: gl::ARRAY_BUFFER, data: vec![], usage: gl::DYNAMIC_DRAW }
    );
}

#[test]
fn shader_calls() {
    let s = Shader(6);
    assert_eq!(Shader::create(ShaderType::Vertex), GlCall::CreateShader { kind: gl::VERTEX_SHADER });
    assert_eq!(Shader::create(ShaderType::Fragment), GlCall::CreateShader { kind: gl::FRAGMENT_SHADER });
    assert_eq!(s.set_source("void main(){}"), GlCall::ShaderSource { shader: 6, source: "void main(){}".to_string() });
    assert_eq!(s.compile(), GlCall::CompileShader { shader: 6 });
    assert_eq!(s.compile_status(), GlCall::ShaderParam { shader: 6, pname: gl::COMPILE_STATUS });
    assert_eq!(s.info_log(), GlCall::ShaderInfoLog { shader: 6 });
    assert!(Shader::compile_success(1));
    assert!(!Shader::compile_success(0));
    assert!(!Shader::compile_success(-1));
    assert_eq!(s.delete(), GlCall::DeleteShader { shader: 6 });
}

#[test]
fn program_calls() {
    let p = ShaderProgram { prog_id: 8 };
    assert_eq!(ShaderProgram::create(), GlCall::CreateProgram);
    assert_eq!(p.attach_shader(&Shader(3)), GlCall::AttachShader { program: 8, shader: 3 });
    assert_eq!(p.link_program(), GlCall::LinkProgram { program: 8 });
    assert_eq!(p.link_status(), GlCall::ProgramParam { program: 8, pname: gl::LINK_STATUS });
    assert_eq!(p.info_log(), GlCall::ProgramInfoLog { program: 8 });
    assert_eq!(p.use_program(), GlCall::UseProgram { program: 8 });
    assert!(ShaderProgram::link_success(1));
    assert!(!ShaderProgram::link_success(0));
    assert_eq!(p.delete(), GlCall::DeleteProgram { program: 8 });
}

#[test]
fn polygon_modes_and_clear() {
    assert_eq!(polygon_mode(PolygonMode::Point), GlCall::PolygonMode { face: gl::FRONT_AND_BACK, mode: gl::POINT });
    assert_eq!(polygon_mode(PolygonMode::Line), GlCall::PolygonMode { face: gl::FRONT_AND_BACK, mode: gl::LINE });
    assert_eq!(polygon_mode(PolygonMode::Fill), GlCall::PolygonMode { face: gl::FRONT_AND_BACK, mode: gl::FILL });
    assert_eq!(clear(), GlCall::Clear { mask: gl::COLOR_BUFFER_BIT });
    assert_eq!(clear(), clear());
}

#[test]
fn kinds_map_to_driver_constants() {
    assert_eq!(BufferType::Array.gl_enum(), gl::ARRAY_BUFFER);
    assert_eq!(BufferType::ElementArray.gl_enum(), gl::ELEMENT_ARRAY_BUFFER);
    assert_eq!(ShaderType::Vertex.gl_enum(), gl::VERTEX_SHADER);
    assert_eq!(ShaderType::Fragment.gl_enum(), gl::FRAGMENT_SHADER);
    assert_eq!(PolygonMode::Fill.gl_enum(), gl::FILL);
}
