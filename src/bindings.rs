//! The driver's current-binding slots, tracked as explicit state.
//!
//! The driver keeps one current vertex array and one current buffer per
//! target, and an upload goes to whatever is current. `Bindings` follows the
//! binding calls as they are performed, so a caller can see what an upload
//! would reach before performing it.
use vstd::prelude::*;
use crate::calls::{GlCall, ARRAY_BUFFER, ELEMENT_ARRAY_BUFFER};
use crate::handles::{Buffer, BufferType};

verus! {

/// The name bound in each slot; 0 where nothing is bound.
#[derive(Clone, Copy, Debug, PartialEq, Eq, Structural)]
pub struct Bindings {
    pub vertex_array: u32,
    pub array_buffer: u32,
    pub element_array_buffer: u32,
}

impl Bindings {
    pub open spec fn spec_bound(self, ty: BufferType) -> u32 {
        match ty {
            BufferType::Array => self.array_buffer,
            BufferType::ElementArray => self.element_array_buffer,
        }
    }

    /// The slots once `call` has been performed.
    pub open spec fn after_call(self, call: GlCall) -> Bindings {
        match call {
            GlCall::BindVertexArray { array } => Bindings { vertex_array: array, ..self },
            GlCall::BindBuffer { target, buffer } => if target == ARRAY_BUFFER {
                Bindings { array_buffer: buffer, ..self }
            } else if target == ELEMENT_ARRAY_BUFFER {
                Bindings { element_array_buffer: buffer, ..self }
            } else {
                self
            },
            _ => self,
        }
    }

    /// Whether performing `call` now is sound: an upload needs a buffer bound
    /// to its target; every other call may go.
    pub open spec fn spec_allows(self, call: GlCall) -> bool {
        match call {
            GlCall::BufferData { target, .. } => (target == ARRAY_BUFFER && self.array_buffer
                != 0) || (target == ELEMENT_ARRAY_BUFFER && self.element_array_buffer != 0),
            _ => true,
        }
    }

    /// Nothing bound, as in a fresh context.
    pub fn new() -> (r: Bindings)
        ensures
            r == (Bindings { vertex_array: 0, array_buffer: 0, element_array_buffer: 0 }),
    {
        Bindings { vertex_array: 0, array_buffer: 0, element_array_buffer: 0 }
    }

    /// The buffer bound to the target of `ty`; 0 when there is none.
    pub fn bound(&self, ty: BufferType) -> (r: u32)
        ensures
            r == self.spec_bound(ty),
    {
        match ty {
            BufferType::Array => self.array_buffer,
            BufferType::ElementArray => self.element_array_buffer,
        }
    }

    /// Notes the effect of a call that has been performed.
    pub fn record(&mut self, call: &GlCall)
        ensures
            *final(self) == old(self).after_call(*call),
    {
        match call {
            GlCall::BindVertexArray { array } => {
                self.vertex_array = *array;
            },
            GlCall::BindBuffer { target, buffer } => {
                if *target == ARRAY_BUFFER {
                    self.array_buffer = *buffer;
                } else if *target == ELEMENT_ARRAY_BUFFER {
                    self.element_array_buffer = *buffer;
                }
            },
            _ => {},
        }
    }

    /// Whether `call` may be performed now; see `spec_allows`.
    pub fn allows(&self, call: &GlCall) -> (r: bool)
        ensures
            r == self.spec_allows(*call),
    {
        match call {
            GlCall::BufferData { target, .. } => (*target == ARRAY_BUFFER && self.array_buffer
                != 0) || (*target == ELEMENT_ARRAY_BUFFER && self.element_array_buffer != 0),
            _ => true,
        }
    }
}

/// Binding a buffer makes it the one an upload of that kind reaches, and
/// leaves the other slots as they were; clearing the binding leaves uploads
/// of that kind with nowhere to go.
pub proof fn lemma_bind_then_upload(s: Bindings, b: Buffer, ty: BufferType, data: Vec<u8>, usage: u32)
    requires
        b.0 != 0,
    ensures
        s.after_call(GlCall::BindBuffer { target: ty.spec_gl_enum(), buffer: b.0 }).spec_bound(ty)
            == b.0,
        s.after_call(GlCall::BindBuffer { target: ty.spec_gl_enum(), buffer: b.0 }).vertex_array
            == s.vertex_array,
        s.after_call(GlCall::BindBuffer { target: ty.spec_gl_enum(), buffer: b.0 }).spec_allows(
            GlCall::BufferData { target: ty.spec_gl_enum(), data, usage },
        ),
        !s.after_call(GlCall::BindBuffer { target: ty.spec_gl_enum(), buffer: 0 }).spec_allows(
            GlCall::BufferData { target: ty.spec_gl_enum(), data, usage },
        ),
{
}

} // verus!
