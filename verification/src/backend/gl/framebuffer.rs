//! OpenGL framebuffer implementation.
//!
//! The device holds the framebuffer object; what is kept here is its record:
//! the size it was created with, what is attached to it, and how far it has
//! come on its way to being used. The record decides what it can decide alone,
//! that a framebuffer without any attachment is never complete, and takes the
//! device's word for the rest.

use crate::backend::framebuffer::{
    completeness,
    Framebuffer,
    FramebufferError,
    IncompleteReason,
    Stage,
};
use crate::backend::gl::GL;
use vstd::prelude::*;

verus! {

/// OpenGL texture, as a framebuffer refers to it: by the device's name for it.
#[derive(Clone, Copy, Debug, PartialEq, Eq)]
pub struct RawTexture {
    /// The device's name for the texture.
    pub handle: u32,
}

/// OpenGL framebuffer.
pub struct RawFramebuffer<D: Copy> {
    size: D,
    mipmaps: usize,
    colors: Vec<(usize, RawTexture)>,
    depth: Option<RawTexture>,
    stage: Stage,
}

/// No attachment index occurs twice.
spec fn distinct(entries: Seq<(usize, RawTexture)>) -> bool {
    forall|j: int, k: int| 0 <= j < k < entries.len() ==> entries[j].0 != entries[k].0
}

/// Whether `entries` holds an attachment at `index`.
spec fn holds(entries: Seq<(usize, RawTexture)>, index: usize) -> bool {
    exists|k: int| 0 <= k < entries.len() && #[trigger] entries[k].0 == index
}

/// The attachments by index.
spec fn table(entries: Seq<(usize, RawTexture)>) -> Map<usize, RawTexture> {
    Map::new(
        |index: usize| holds(entries, index),
        |index: usize|
            entries[choose|k: int| 0 <= k < entries.len() && #[trigger] entries[k].0 == index].1,
    )
}

/// Each entry is found in the table under its index.
proof fn lemma_table_entry(entries: Seq<(usize, RawTexture)>, k: int)
    requires
        distinct(entries),
        0 <= k < entries.len(),
    ensures
        table(entries).dom().contains(entries[k].0),
        table(entries)[entries[k].0] == entries[k].1,
{
}

/// Replacing the texture of an entry replaces it in the table.
proof fn lemma_table_update(entries: Seq<(usize, RawTexture)>, k: int, texture: RawTexture)
    requires
        distinct(entries),
        0 <= k < entries.len(),
    ensures
        distinct(entries.update(k, (entries[k].0, texture))),
        table(entries.update(k, (entries[k].0, texture))) == table(entries).insert(
            entries[k].0,
            texture,
        ),
{
    let index = entries[k].0;
    let after = entries.update(k, (index, texture));
    assert(distinct(after)) by {
        assert forall|i: int, j: int| 0 <= i < j < after.len() implies after[i].0 != after[j].0 by {}
    }
    assert forall|other: usize| holds(after, other) <==> holds(entries, other) || other
        == index by {
        if holds(entries, other) {
            let j = choose|j: int| 0 <= j < entries.len() && #[trigger] entries[j].0 == other;
            assert(after[j].0 == other);
        }
    }
    assert forall|other: usize| holds(after, other) implies table(after)[other] == table(
        entries,
    ).insert(index, texture)[other] by {
        let j = choose|j: int| 0 <= j < after.len() && #[trigger] after[j].0 == other;
        lemma_table_entry(after, j);
        if other != index {
            lemma_table_entry(entries, j);
        }
    }
}

/// Adding an entry under a new index adds it to the table.
proof fn lemma_table_push(entries: Seq<(usize, RawTexture)>, index: usize, texture: RawTexture)
    requires
        distinct(entries),
        !holds(entries, index),
    ensures
        distinct(entries.push((index, texture))),
        table(entries.push((index, texture))) == table(entries).insert(index, texture),
{
    let after = entries.push((index, texture));
    let last = entries.len() as int;
    assert(distinct(after)) by {
        assert forall|i: int, j: int| 0 <= i < j < after.len() implies after[i].0 != after[j].0 by {}
    }
    assert forall|other: usize| holds(after, other) <==> holds(entries, other) || other
        == index by {
        if holds(entries, other) {
            let j = choose|j: int| 0 <= j < entries.len() && #[trigger] entries[j].0 == other;
            assert(after[j].0 == other);
        }
        if other == index {
            assert(after[last].0 == other);
        }
    }
    assert forall|other: usize| holds(after, other) implies table(after)[other] == table(
        entries,
    ).insert(index, texture)[other] by {
        let j = choose|j: int| 0 <= j < after.len() && #[trigger] after[j].0 == other;
        lemma_table_entry(after, j);
        if other != index {
            lemma_table_entry(entries, j);
        }
    }
}

impl<D: Copy> RawFramebuffer<D> {
    /// No attachment index occurs twice; a framebuffer that no texture was
    /// attached to has none, and a complete one has at least one.
    #[verifier::type_invariant]
    spec fn consistent(&self) -> bool {
        &&& distinct(self.colors@)
        &&& self.stage == Stage::Unattached ==> self.colors@.len() == 0 && self.depth is None
        &&& self.stage == Stage::Complete ==> self.colors@.len() > 0 || self.depth is Some
    }

    /// The size that the framebuffer was created with.
    pub closed spec fn size(&self) -> D {
        self.size
    }

    /// The number of mipmap levels that the framebuffer was created with.
    pub closed spec fn spec_mipmaps(&self) -> usize {
        self.mipmaps
    }

    /// The color targets, by attachment index.
    pub closed spec fn color_textures(&self) -> Map<usize, RawTexture> {
        table(self.colors@)
    }

    /// The depth target, if there is one.
    pub closed spec fn spec_depth_texture(&self) -> Option<RawTexture> {
        self.depth
    }

    /// Where the framebuffer stands.
    pub closed spec fn spec_stage(&self) -> Stage {
        self.stage
    }

    /// Whether anything is attached, color or depth.
    pub open spec fn attached(&self) -> bool {
        self.color_textures() != Map::<usize, RawTexture>::empty()
            || self.depth_texture() is Some
    }

    /// The record of a framebuffer of the given size that nothing is attached
    /// to.
    pub fn new(size: D, mipmaps: usize) -> (framebuffer: RawFramebuffer<D>)
        ensures
            framebuffer.size() == size,
            framebuffer.mipmaps() == mipmaps,
            framebuffer.color_textures() == Map::<usize, RawTexture>::empty(),
            framebuffer.depth_texture() is None,
            framebuffer.stage() == Stage::Unattached,
            !framebuffer.attached(),
    {
        RawFramebuffer { size, mipmaps, colors: Vec::new(), depth: None, stage: Stage::Unattached }
    }

    /// The number of mipmap levels that the framebuffer was created with.
    #[verifier::when_used_as_spec(spec_mipmaps)]
    pub fn mipmaps(&self) -> (mipmaps: usize)
        ensures
            mipmaps == self.spec_mipmaps(),
    {
        self.mipmaps
    }

    /// The color target at `index`, if there is one.
    pub fn color_texture(&self, index: usize) -> (texture: Option<RawTexture>)
        ensures
            texture == if self.color_textures().dom().contains(index) {
                Some(self.color_textures()[index])
            } else {
                None
            },
    {
        proof {
            use_type_invariant(self);
        }
        match self.find(index) {
            Some(k) => {
                proof {
                    lemma_table_entry(self.colors@, k as int);
                }
                Some(self.colors[k].1)
            },
            None => None,
        }
    }

    /// The depth target, if there is one.
    #[verifier::when_used_as_spec(spec_depth_texture)]
    pub fn depth_texture(&self) -> (texture: Option<RawTexture>)
        ensures
            texture == self.spec_depth_texture(),
    {
        self.depth
    }

    /// Where the framebuffer stands. A framebuffer that stands as complete
    /// has at least one attachment, and one that stands as unattached has
    /// none.
    #[verifier::when_used_as_spec(spec_stage)]
    pub fn stage(&self) -> (stage: Stage)
        ensures
            stage == self.spec_stage(),
            stage == Stage::Complete ==> self.attached(),
            stage == Stage::Unattached ==> !self.attached(),
    {
        proof {
            use_type_invariant(self);
            self.lemma_attached();
        }
        self.stage
    }

    /// Whether the record holds any entry is whether anything is attached.
    proof fn lemma_attached(&self)
        ensures
            self.attached() <==> self.colors@.len() > 0 || self.depth is Some,
    {
        if self.colors@.len() > 0 {
            assert(table(self.colors@).dom().contains(self.colors@[0].0));
        } else {
            assert(table(self.colors@) =~= Map::<usize, RawTexture>::empty());
        }
    }

    /// The position of the color attachment at `index`, if there is one.
    fn find(&self, index: usize) -> (position: Option<usize>)
        ensures
            match position {
                Some(k) => k < self.colors@.len() && self.colors@[k as int].0 == index,
                None => !holds(self.colors@, index),
            },
    {
        let mut k: usize = 0;
        while k < self.colors.len()
            invariant
                k <= self.colors@.len(),
                forall|j: int| 0 <= j < k ==> self.colors@[j].0 != index,
            decreases self.colors@.len() - k,
        {
            if self.colors[k].0 == index {
                return Some(k);
            }
            k += 1;
        }
        None
    }
}

impl<D: Copy> Framebuffer<D> for GL {
    type Sampler = ();

    type TextureRepr = RawTexture;

    type FramebufferRepr = RawFramebuffer<D>;

    open spec fn size(framebuffer: &RawFramebuffer<D>) -> D {
        framebuffer.size()
    }

    open spec fn mipmaps(framebuffer: &RawFramebuffer<D>) -> usize {
        framebuffer.spec_mipmaps()
    }

    open spec fn color_textures(framebuffer: &RawFramebuffer<D>) -> Map<usize, RawTexture> {
        framebuffer.color_textures()
    }

    open spec fn depth_texture(framebuffer: &RawFramebuffer<D>) -> Option<RawTexture> {
        framebuffer.spec_depth_texture()
    }

    open spec fn stage(framebuffer: &RawFramebuffer<D>) -> Stage {
        framebuffer.spec_stage()
    }

    /// Starts the record of a framebuffer. This never fails, and the backend
    /// is left as it was.
    fn new_framebuffer(&mut self, size: D, mipmaps: usize, sampler: &()) -> (r: Result<
        RawFramebuffer<D>,
        FramebufferError,
    >)
        ensures
            r is Ok,
            *final(self) == *old(self),
    {
        Ok(RawFramebuffer::new(size, mipmaps))
    }

    /// Empties the record. Its size and its number of levels stay.
    fn destroy_framebuffer(framebuffer: &mut RawFramebuffer<D>)
        ensures
            final(framebuffer).size() == old(framebuffer).size(),
            final(framebuffer).mipmaps() == old(framebuffer).mipmaps(),
            !final(framebuffer).attached(),
    {
        proof {
            use_type_invariant(&*framebuffer);
        }
        framebuffer.stage = Stage::Attaching;
        framebuffer.colors = Vec::new();
        framebuffer.depth = None;
        framebuffer.stage = Stage::Unattached;
    }

    /// Records `texture` as the color target `attachment_index`. This never
    /// fails.
    fn attach_color_texture(
        framebuffer: &mut RawFramebuffer<D>,
        texture: &RawTexture,
        attachment_index: usize,
    ) -> (r: Result<(), FramebufferError>)
        ensures
            r is Ok,
            final(framebuffer).attached(),
    {
        proof {
            use_type_invariant(&*framebuffer);
        }
        framebuffer.stage = Stage::Attaching;
        let position: Option<usize> = framebuffer.find(attachment_index);
        let mut colors: Vec<(usize, RawTexture)> = Vec::new();
        core::mem::swap(&mut colors, &mut framebuffer.colors);
        match position {
            Some(k) => {
                proof {
                    lemma_table_update(colors@, k as int, *texture);
                }
                colors.set(k, (attachment_index, *texture));
            },
            None => {
                proof {
                    lemma_table_push(colors@, attachment_index, *texture);
                }
                colors.push((attachment_index, *texture));
            },
        }
        core::mem::swap(&mut colors, &mut framebuffer.colors);
        proof {
            framebuffer.lemma_attached();
        }
        Ok(())
    }

    /// Records `texture` as the depth target. This never fails.
    fn attach_depth_texture(framebuffer: &mut RawFramebuffer<D>, texture: &RawTexture) -> (r:
        Result<(), FramebufferError>)
        ensures
            r is Ok,
            final(framebuffer).attached(),
    {
        proof {
            use_type_invariant(&*framebuffer);
        }
        framebuffer.stage = Stage::Attaching;
        framebuffer.depth = Some(*texture);
        Ok(())
    }

    fn framebuffer_size(framebuffer: &RawFramebuffer<D>) -> (size: D) {
        framebuffer.size
    }
}

impl GL {
    /// Validates a framebuffer, given what the device reports of its
    /// completeness: nothing to object to, or the first reason it found.
    ///
    /// A framebuffer without any attachment fails with
    /// [`IncompleteReason::MissingAttachment`] whatever the report says.
    /// Otherwise the report decides. Nothing but the stage changes.
    pub fn validate_framebuffer<D: Copy>(
        framebuffer: &mut RawFramebuffer<D>,
        report: Result<(), IncompleteReason>,
    ) -> (r: Result<(), FramebufferError>)
        ensures
            r == match completeness(old(framebuffer).attached(), report) {
                Ok(()) => Ok::<(), FramebufferError>(()),
                Err(reason) => Err(FramebufferError::Incomplete(reason)),
            },
            final(framebuffer).stage() == match completeness(old(framebuffer).attached(), report) {
                Ok(()) => Stage::Complete,
                Err(reason) => Stage::Incomplete(reason),
            },
            final(framebuffer).size() == old(framebuffer).size(),
            final(framebuffer).mipmaps() == old(framebuffer).mipmaps(),
            final(framebuffer).color_textures() == old(framebuffer).color_textures(),
            final(framebuffer).depth_texture() == old(framebuffer).depth_texture(),
    {
        proof {
            use_type_invariant(&*framebuffer);
            framebuffer.lemma_attached();
        }
        let verdict: Result<(), IncompleteReason> = if framebuffer.colors.len() == 0
            && framebuffer.depth.is_none() {
            Err(IncompleteReason::MissingAttachment)
        } else {
            report
        };
        match verdict {
            Ok(()) => {
                framebuffer.stage = Stage::Complete;
                Ok(())
            },
            Err(reason) => {
                framebuffer.stage = Stage::Incomplete(reason);
                Err(FramebufferError::from(reason))
            },
        }
    }
}

} // verus!
