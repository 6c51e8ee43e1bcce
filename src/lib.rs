//! Typed handles over a GL driver's objects, and a shader program builder that
//! leaves no shader behind on any path.
//!
//! The library does not call the driver. Each operation yields the `GlCall`
//! that performs it, and the program and shader builds are state machines
//! that ask for one call at a time and take the driver's reply. Whoever owns
//! the context performs the calls.

pub mod calls;
pub mod handles;
pub mod error;
pub mod bindings;
pub mod shader_build;
pub mod program_build;
pub mod laws;
