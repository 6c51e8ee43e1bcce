use gl_engine::bindings::Bindings;
use gl_engine::calls::GlCall;
use gl_engine::handles::{buffer_data, Buffer, BufferType, VertexArray};

#[test]
fn fresh_context_has_nothing_bound() {
    let s = Bindings::new();
    assert_eq!(s.bound(BufferType::Array), 0);
    assert_eq!(s.bound(BufferType::ElementArray), 0);
    assert_eq!(s.vertex_array, 0);
    assert!(!s.allows(&buffer_data(BufferType::Array, &[1, 2], gl::STATIC_DRAW)));
    assert!(s.allows(&GlCall::CreateProgram));
}

#[test]
fn binding_follows_each_slot() {
    let mut s = Bindings::new();
    s.record(&VertexArray(1).bind());
    s.record(&Buffer(2).bind(BufferType::Array));
    s.record(&Buffer(3).bind(BufferType::ElementArray));
    assert_eq!(s, Bindings { vertex_array: 1, array_buffer: 2, element_array_buffer: 3 });
    assert!(s.allows(&buffer_data(BufferType::Array, &[1], gl::STATIC_DRAW)));
    assert!(s.allows(&buffer_data(BufferType::ElementArray, &[1], gl::STATIC_DRAW)));
    s.record(&Buffer::clear_binding(BufferType::Array));
    assert_eq!(s.bound(BufferType::Array), 0);
    assert_eq!(s.bound(BufferType::ElementArray), 3);
    assert!(!s.allows(&buffer_data(BufferType::Array, &[1], gl::STATIC_DRAW)));
    s.record(&VertexArray(1).clear_binding());
    assert_eq!(s.vertex_array, 0);
}

#[test]
fn unknown_target_changes_nothing() {
    let mut s = Bindings::new();
    s.record(&GlCall::BindBuffer { target: gl::UNIFORM_BUFFER, buffer: 5 });
    assert_eq!(s, Bindings::new());
    assert!(!s.allows(&GlCall::BufferData { target: gl::UNIFORM_BUFFER, data: vec![], usage: gl::STATIC_DRAW }));
}
