//! Framebuffer backend.

use crate::backend::texture::TextureError;
use vstd::prelude::*;
use vstd::std_specs::convert::FromSpecImpl;
use vstd::string::*;

verus! {

/// Framebuffer error.
#[derive(Clone, Debug, PartialEq, Eq)]
pub enum FramebufferError {
    /// Texture error.
    ///
    /// This happens while creating or associating the color and depth
    /// targets. The cause is passed on as the texture subsystem gave it.
    TextureError(TextureError),
    /// Incomplete error.
    ///
    /// This happens when finalizing the construction of the framebuffer.
    Incomplete(IncompleteReason),
}

/// Reason a framebuffer is incomplete.
#[derive(Clone, Copy, Debug, PartialEq, Eq)]
pub enum IncompleteReason {
    /// Incomplete framebuffer.
    Undefined,
    /// Incomplete attachment (color / depth).
    IncompleteAttachment,
    /// An attachment was missing.
    MissingAttachment,
    /// Incomplete draw buffer.
    IncompleteDrawBuffer,
    /// Incomplete read buffer.
    IncompleteReadBuffer,
    /// Unsupported.
    Unsupported,
    /// Incomplete multisample configuration.
    IncompleteMultisample,
    /// Incomplete layer targets.
    IncompleteLayerTargets,
}

impl IncompleteReason {
    /// The reason in words.
    pub open spec fn message(&self) -> Seq<char> {
        match self {
            IncompleteReason::Undefined => "incomplete reason"@,
            IncompleteReason::IncompleteAttachment => "incomplete attachment"@,
            IncompleteReason::MissingAttachment => "missing attachment"@,
            IncompleteReason::IncompleteDrawBuffer => "incomplete draw buffer"@,
            IncompleteReason::IncompleteReadBuffer => "incomplete read buffer"@,
            IncompleteReason::Unsupported => "unsupported"@,
            IncompleteReason::IncompleteMultisample => "incomplete multisample"@,
            IncompleteReason::IncompleteLayerTargets => "incomplete layer targets"@,
        }
    }

    /// The reason in words.
    pub fn to_string(&self) -> (s: String)
        ensures
            s@ == self.message(),
    {
        match self {
            IncompleteReason::Undefined => String::from_str("incomplete reason"),
            IncompleteReason::IncompleteAttachment => String::from_str("incomplete attachment"),
            IncompleteReason::MissingAttachment => String::from_str("missing attachment"),
            IncompleteReason::IncompleteDrawBuffer => String::from_str("incomplete draw buffer"),
            IncompleteReason::IncompleteReadBuffer => String::from_str("incomplete read buffer"),
            IncompleteReason::Unsupported => String::from_str("unsupported"),
            IncompleteReason::IncompleteMultisample => String::from_str("incomplete multisample"),
            IncompleteReason::IncompleteLayerTargets => String::from_str(
                "incomplete layer targets",
            ),
        }
    }
}

impl FramebufferError {
    /// The error in words: what kind it is, then its cause.
    pub open spec fn message(&self) -> Seq<char> {
        match self {
            FramebufferError::TextureError(e) => "framebuffer texture error: "@ + e.message(),
            FramebufferError::Incomplete(e) => "incomplete framebuffer: "@ + e.message(),
        }
    }

    /// The error in words: what kind it is, then its cause.
    pub fn to_string(&self) -> (s: String)
        ensures
            s@ == self.message(),
    {
        match self {
            FramebufferError::TextureError(e) => {
                let cause = e.to_string();
                String::from_str("framebuffer texture error: ").concat(cause.as_str())
            },
            FramebufferError::Incomplete(e) => {
                let cause = e.to_string();
                String::from_str("incomplete framebuffer: ").concat(cause.as_str())
            },
        }
    }
}

impl From<TextureError> for FramebufferError {
    fn from(e: TextureError) -> (error: FramebufferError) {
        FramebufferError::TextureError(e)
    }
}

impl FromSpecImpl<TextureError> for FramebufferError {
    open spec fn obeys_from_spec() -> bool {
        true
    }

    open spec fn from_spec(e: TextureError) -> FramebufferError {
        FramebufferError::TextureError(e)
    }
}

impl From<IncompleteReason> for FramebufferError {
    fn from(e: IncompleteReason) -> (error: FramebufferError) {
        FramebufferError::Incomplete(e)
    }
}

impl FromSpecImpl<IncompleteReason> for FramebufferError {
    open spec fn obeys_from_spec() -> bool {
        true
    }

    open spec fn from_spec(e: IncompleteReason) -> FramebufferError {
        FramebufferError::Incomplete(e)
    }
}

/// Where a framebuffer stands between its creation and its use.
#[derive(Clone, Copy, Debug, PartialEq, Eq)]
pub enum Stage {
    /// Created; nothing is attached.
    Unattached,
    /// Something was attached since the framebuffer was created or last
    /// validated.
    Attaching,
    /// Validated and ready for use as a render target.
    Complete,
    /// Validated and found wanting.
    Incomplete(IncompleteReason),
}

/// The verdict on a framebuffer of which the device reports `report`. Without
/// any attachment a framebuffer is incomplete whatever the device says; with
/// one, the device decides.
pub open spec fn completeness(attached: bool, report: Result<(), IncompleteReason>) -> Result<
    (),
    IncompleteReason,
> {
    if attached {
        report
    } else {
        Err(IncompleteReason::MissingAttachment)
    }
}

/// Framebuffers of a backend, for render targets whose dimensional size is a
/// `D`: a width, a width and a height, or whatever the dimensionality asks
/// for.
///
/// A framebuffer is created without attachments. Textures are then attached as
/// its color targets, each at an index of its own, and as its one depth
/// target; attaching again at an index, or another depth texture, replaces
/// what was there. Its size is fixed when it is created.
///
/// The contract speaks of a framebuffer through five properties. A backend
/// says what they are for its own representation; until it does, nothing is
/// known of them.
pub trait Framebuffer<D> where D: Copy {
    /// How the textures behind a framebuffer are sampled.
    type Sampler;

    /// A texture as the backend holds it.
    type TextureRepr;

    /// A framebuffer as the backend holds it.
    type FramebufferRepr;

    /// The size that the framebuffer was created with.
    open spec fn size(framebuffer: &Self::FramebufferRepr) -> D {
        arbitrary()
    }

    /// The number of mipmap levels that the framebuffer was created with.
    open spec fn mipmaps(framebuffer: &Self::FramebufferRepr) -> usize {
        arbitrary()
    }

    /// The color targets, by attachment index.
    open spec fn color_textures(framebuffer: &Self::FramebufferRepr) -> Map<usize, Self::TextureRepr> {
        arbitrary()
    }

    /// The depth target, if there is one.
    open spec fn depth_texture(framebuffer: &Self::FramebufferRepr) -> Option<Self::TextureRepr> {
        arbitrary()
    }

    /// Where the framebuffer stands.
    open spec fn stage(framebuffer: &Self::FramebufferRepr) -> Stage {
        arbitrary()
    }

    /// Creates a framebuffer of the given size. It starts without attachments.
    fn new_framebuffer(&mut self, size: D, mipmaps: usize, sampler: &Self::Sampler) -> (r:
        Result<Self::FramebufferRepr, FramebufferError>)
        ensures
            r matches Ok(framebuffer) ==> {
                &&& Self::size(&framebuffer) == size
                &&& Self::mipmaps(&framebuffer) == mipmaps
                &&& Self::color_textures(&framebuffer) == Map::<usize, Self::TextureRepr>::empty()
                &&& Self::depth_texture(&framebuffer) is None
                &&& Self::stage(&framebuffer) == Stage::Unattached
            },
    ;

    /// Releases a framebuffer and every association with a texture.
    fn destroy_framebuffer(framebuffer: &mut Self::FramebufferRepr)
        ensures
            Self::color_textures(final(framebuffer)) == Map::<usize, Self::TextureRepr>::empty(),
            Self::depth_texture(final(framebuffer)) is None,
            Self::stage(final(framebuffer)) == Stage::Unattached,
    ;

    /// Attaches `texture` as the color target `attachment_index`. The only
    /// failure is one of the texture itself, and it leaves the framebuffer as
    /// it was.
    fn attach_color_texture(
        framebuffer: &mut Self::FramebufferRepr,
        texture: &Self::TextureRepr,
        attachment_index: usize,
    ) -> (r: Result<(), FramebufferError>)
        ensures
            Self::size(final(framebuffer)) == Self::size(old(framebuffer)),
            Self::mipmaps(final(framebuffer)) == Self::mipmaps(old(framebuffer)),
            Self::depth_texture(final(framebuffer)) == Self::depth_texture(old(framebuffer)),
            r is Ok ==> {
                &&& Self::color_textures(final(framebuffer)) == Self::color_textures(
                    old(framebuffer),
                ).insert(attachment_index, *texture)
                &&& Self::stage(final(framebuffer)) == Stage::Attaching
            },
            r matches Err(e) ==> {
                &&& e is TextureError
                &&& Self::color_textures(final(framebuffer)) == Self::color_textures(
                    old(framebuffer),
                )
                &&& Self::stage(final(framebuffer)) == Self::stage(old(framebuffer))
            },
    ;

    /// Attaches `texture` as the depth target, in place of the one before if
    /// there was one. The only failure is one of the texture itself, and it
    /// leaves the framebuffer as it was.
    fn attach_depth_texture(framebuffer: &mut Self::FramebufferRepr, texture: &Self::TextureRepr)
        -> (r: Result<(), FramebufferError>)
        ensures
            Self::size(final(framebuffer)) == Self::size(old(framebuffer)),
            Self::mipmaps(final(framebuffer)) == Self::mipmaps(old(framebuffer)),
            Self::color_textures(final(framebuffer)) == Self::color_textures(old(framebuffer)),
            r is Ok ==> {
                &&& Self::depth_texture(final(framebuffer)) == Some(*texture)
                &&& Self::stage(final(framebuffer)) == Stage::Attaching
            },
            r matches Err(e) ==> {
                &&& e is TextureError
                &&& Self::depth_texture(final(framebuffer)) == Self::depth_texture(
                    old(framebuffer),
                )
                &&& Self::stage(final(framebuffer)) == Self::stage(old(framebuffer))
            },
    ;

    /// The size that the framebuffer was created with.
    fn framebuffer_size(framebuffer: &Self::FramebufferRepr) -> (size: D)
        ensures
            size == Self::size(framebuffer),
    ;
}

} // verus!
