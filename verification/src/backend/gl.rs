//! The core of the OpenGL backend.

use vstd::prelude::*;

pub mod buffer;
pub mod framebuffer;
pub mod state;

verus! {

/// The OpenGL backend: the one owner of the device state that every resource
/// operation works on.
pub struct GL {
    /// What the device has bound, as far as this backend has asked for it.
    pub state: state::GLState,
}

impl GL {
    /// A backend over the given device state.
    pub fn new(state: state::GLState) -> (gl: GL)
        ensures
            gl.state == state,
    {
        GL { state }
    }
}

} // verus!
