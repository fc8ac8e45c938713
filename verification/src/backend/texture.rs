//! Texture backend, as far as framebuffers meet it.
//!
//! Textures are made and kept elsewhere. A framebuffer passes on what went
//! wrong with a texture without looking into it.

use vstd::prelude::*;
use vstd::string::*;

verus! {

/// Texture error: what the texture subsystem reports, in its own words.
#[derive(Clone, Debug, PartialEq, Eq)]
pub struct TextureError {
    reason: String,
}

impl TextureError {
    /// The report of the texture subsystem.
    pub closed spec fn message(&self) -> Seq<char> {
        self.reason@
    }

    /// A texture error with the given report.
    pub fn new(reason: String) -> (e: TextureError)
        ensures
            e.message() == reason@,
    {
        TextureError { reason }
    }

    /// The report of the texture subsystem.
    pub fn to_string(&self) -> (s: String)
        ensures
            s@ == self.message(),
    {
        self.reason.clone()
    }
}

} // verus!
