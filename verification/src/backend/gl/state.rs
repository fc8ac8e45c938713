//! Device state: the cache of what is currently bound.
//!
//! The device binds at most one resource of each kind at a time. The cache
//! remembers, for each kind, the name that the device was last asked to bind,
//! so that a bind of what is bound already can be skipped.

use vstd::prelude::*;

verus! {

/// How a binding is requested.
#[derive(Clone, Copy, Debug, PartialEq, Eq)]
pub enum Bind {
    /// The device is always asked to bind, whatever the cache holds. This is
    /// for a resource that was just created, when what the device has bound
    /// cannot be trusted.
    Forced,
    /// The device is asked to bind only if the cache shows another resource.
    Cached,
}

/// The kinds of resources that are bound independently of each other.
#[derive(Clone, Copy, Debug, PartialEq, Eq)]
pub enum ResourceKind {
    /// Buffers bound as the array buffer.
    ArrayBuffer,
    /// Framebuffers.
    Framebuffer,
}

/// The binding cache: for each kind of resource, the name of the one that is
/// bound. The name `0` stands for none.
pub struct GLState {
    bound_array_buffer: u32,
    bound_framebuffer: u32,
}

impl View for GLState {
    type V = Map<ResourceKind, u32>;

    /// The bound name of every kind.
    closed spec fn view(&self) -> Map<ResourceKind, u32> {
        Map::total(
            |kind: ResourceKind|
                match kind {
                    ResourceKind::ArrayBuffer => self.bound_array_buffer,
                    ResourceKind::Framebuffer => self.bound_framebuffer,
                },
        )
    }
}

impl GLState {
    /// The name that the cache holds as bound for `kind`.
    pub open spec fn spec_bound(&self, kind: ResourceKind) -> u32 {
        self@[kind]
    }

    /// The name of the array buffer that the cache holds as bound.
    pub open spec fn spec_bound_array_buffer(&self) -> u32 {
        self@[ResourceKind::ArrayBuffer]
    }

    /// A cache that starts from what the device reports as bound.
    pub fn new(bound_array_buffer: u32, bound_framebuffer: u32) -> (state: GLState)
        ensures
            state.bound(ResourceKind::ArrayBuffer) == bound_array_buffer,
            state.bound(ResourceKind::Framebuffer) == bound_framebuffer,
    {
        GLState { bound_array_buffer, bound_framebuffer }
    }

    /// The name that the cache holds as bound for `kind`.
    #[verifier::when_used_as_spec(spec_bound)]
    pub fn bound(&self, kind: ResourceKind) -> (handle: u32)
        ensures
            handle == self.spec_bound(kind),
    {
        match kind {
            ResourceKind::ArrayBuffer => self.bound_array_buffer,
            ResourceKind::Framebuffer => self.bound_framebuffer,
        }
    }

    /// The name of the array buffer that the cache holds as bound.
    #[verifier::when_used_as_spec(spec_bound_array_buffer)]
    pub fn bound_array_buffer(&self) -> (handle: u32)
        ensures
            handle == self.spec_bound_array_buffer(),
    {
        self.bound_array_buffer
    }

    /// Makes `handle` the bound resource of its kind and says whether the
    /// device has to be asked for it: always when forced, and otherwise only
    /// if the cache showed another resource. The other kinds keep what they
    /// have bound.
    pub fn bind(&mut self, kind: ResourceKind, handle: u32, bind: Bind) -> (issue: bool)
        ensures
            final(self)@ == old(self)@.insert(kind, handle),
            issue <==> bind == Bind::Forced || old(self).bound(kind) != handle,
    {
        let issue: bool = match bind {
            Bind::Forced => true,
            Bind::Cached => self.bound(kind) != handle,
        };
        match kind {
            ResourceKind::ArrayBuffer => {
                self.bound_array_buffer = handle;
            },
            ResourceKind::Framebuffer => {
                self.bound_framebuffer = handle;
            },
        }
        issue
    }

    /// Takes `handle` out of the cache before the resource is deleted, so that
    /// the cache never names a dead resource. Says whether the device has to
    /// be asked to bind none of this kind in its place.
    pub fn unbind(&mut self, kind: ResourceKind, handle: u32) -> (issue: bool)
        ensures
            final(self)@ == unbound(old(self)@, kind, handle),
            issue <==> old(self).bound(kind) == handle && handle != 0,
    {
        if self.bound(kind) == handle {
            self.bind(kind, 0, Bind::Cached)
        } else {
            false
        }
    }

    /// Makes `handle` the bound array buffer, as [`GLState::bind`] does.
    pub fn bind_array_buffer(&mut self, handle: u32, bind: Bind) -> (issue: bool)
        ensures
            final(self)@ == old(self)@.insert(ResourceKind::ArrayBuffer, handle),
            issue <==> bind == Bind::Forced || old(self).bound_array_buffer() != handle,
    {
        self.bind(ResourceKind::ArrayBuffer, handle, bind)
    }

    /// Takes the buffer `handle` out of the cache, as [`GLState::unbind`]
    /// does.
    pub fn unbind_buffer(&mut self, handle: u32) -> (issue: bool)
        ensures
            final(self)@ == unbound(old(self)@, ResourceKind::ArrayBuffer, handle),
            issue <==> old(self).bound_array_buffer() == handle && handle != 0,
    {
        self.unbind(ResourceKind::ArrayBuffer, handle)
    }
}

/// The bindings after `handle` was taken out: if it was the bound resource of
/// its kind, none of that kind is bound; else nothing has changed.
pub open spec fn unbound(bindings: Map<ResourceKind, u32>, kind: ResourceKind, handle: u32) -> Map<
    ResourceKind,
    u32,
> {
    if bindings[kind] == handle {
        bindings.insert(kind, 0)
    } else {
        bindings
    }
}

/// A cached bind of what is bound already asks nothing of the device and
/// leaves the bindings as they are: binding is idempotent.
pub proof fn lemma_bind_is_idempotent(bindings: Map<ResourceKind, u32>, kind: ResourceKind)
    requires
        bindings.dom().contains(kind),
    ensures
        bindings.insert(kind, bindings[kind]) == bindings,
        bindings.insert(kind, bindings[kind]).insert(kind, bindings[kind]) == bindings,
{
}

} // verus!
