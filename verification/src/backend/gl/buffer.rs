//! OpenGL buffer implementation.
//!
//! A buffer's store lives on the device. To touch it, the buffer has to be the
//! bound array buffer and its store has to be mapped into host memory; when the
//! work is done the store is unmapped again. The device calls are the driver's:
//! every operation here is cut at the mapping. [`GL::map_request`] is the part
//! before it: it checks the arguments, keeps the binding cache, and says what
//! to ask of the device, or refuses, and then the device is not touched at
//! all. The functions that take the mapped store are the part after it. A
//! mapped store is a slice of as many elements as the buffer holds.

use crate::backend::buffer::{filled, index_error, length_error, written, BufferError};
use crate::backend::gl::state::{unbound, Bind, ResourceKind};
use crate::backend::gl::GL;
use vstd::layout::size_of;
use vstd::prelude::*;

verus! {

/// OpenGL buffer.
///
/// A handle is made by [`GL::new_buffer`] or [`GL::from_slice`] and given up to
/// [`GL::destroy_buffer`], which takes it by value. It cannot be copied, so a
/// destroyed buffer cannot be used again, and the exclusive borrow that a
/// [`BufferSliceMut`] holds shuts out every other view of the same buffer.
#[derive(Debug)]
pub struct RawBuffer {
    handle: u32,
    bytes: usize,
    len: usize,
}

impl RawBuffer {
    /// The device's name for the buffer.
    pub closed spec fn spec_handle(&self) -> u32 {
        self.handle
    }

    /// The size of the buffer's store in bytes.
    pub closed spec fn spec_bytes(&self) -> usize {
        self.bytes
    }

    /// The number of elements of the buffer.
    pub closed spec fn spec_len(&self) -> usize {
        self.len
    }

    /// The size in bytes of a store of `len` elements of type `T`, if a
    /// `usize` can hold it.
    pub fn byte_size<T>(len: usize) -> (bytes: Option<usize>)
        ensures
            bytes == if len * size_of::<T>() <= usize::MAX {
                Some((len * size_of::<T>()) as usize)
            } else {
                None
            },
    {
        len.checked_mul(core::mem::size_of::<T>())
    }

    /// Whether element `index` exists.
    pub fn check_index(&self, index: usize) -> (r: Result<(), BufferError>)
        ensures
            r == match index_error(index, self.len()) {
                Some(e) => Err::<(), BufferError>(e),
                None => Ok(()),
            },
    {
        if index >= self.len {
            Err(BufferError::Overflow { index, buffer_len: self.len })
        } else {
            Ok(())
        }
    }

    /// Whether `provided_len` values can overwrite the whole buffer.
    pub fn check_length(&self, provided_len: usize) -> (r: Result<(), BufferError>)
        ensures
            r == match length_error(provided_len, self.len()) {
                Some(e) => Err::<(), BufferError>(e),
                None => Ok(()),
            },
    {
        if provided_len < self.len {
            Err(BufferError::TooFewValues { provided_len, buffer_len: self.len })
        } else if provided_len > self.len {
            Err(BufferError::TooManyValues { provided_len, buffer_len: self.len })
        } else {
            Ok(())
        }
    }

    /// The device's name for the buffer.
    #[verifier::when_used_as_spec(spec_handle)]
    pub fn handle(&self) -> (handle: u32)
        ensures
            handle == self.spec_handle(),
    {
        self.handle
    }

    /// The size of the buffer's store in bytes.
    #[verifier::when_used_as_spec(spec_bytes)]
    pub fn bytes(&self) -> (bytes: usize)
        ensures
            bytes == self.spec_bytes(),
    {
        self.bytes
    }

    /// The number of elements of the buffer.
    #[verifier::when_used_as_spec(spec_len)]
    pub fn len(&self) -> (len: usize)
        ensures
            len == self.spec_len(),
    {
        self.len
    }
}

/// How the host may use a mapped store.
#[derive(Clone, Copy, Debug, PartialEq, Eq)]
pub enum Access {
    /// The host only reads.
    ReadOnly,
    /// The host only writes.
    WriteOnly,
    /// The host reads and writes.
    ReadWrite,
}

/// An operation that needs a buffer's store mapped, with the argument that
/// decides whether it may proceed.
#[derive(Clone, Copy, Debug, PartialEq, Eq)]
pub enum Operation {
    /// Read one element.
    ReadAt {
        /// The element to read.
        index: usize,
    },
    /// Write one element.
    WriteAt {
        /// The element to write.
        index: usize,
    },
    /// Read the whole store.
    ReadAll,
    /// Overwrite the whole store.
    WriteAll {
        /// The number of values that were provided.
        provided_len: usize,
    },
    /// Fill the whole store with one value.
    Fill,
    /// Open a read-only view.
    ReadView,
    /// Open a read-write view.
    WriteView,
}

impl Operation {
    /// The access that the operation maps the store with: a read operation
    /// maps read-only, a write operation write-only, and only the read-write
    /// view maps both ways.
    pub open spec fn access(self) -> Access {
        match self {
            Operation::ReadAt { .. } | Operation::ReadAll | Operation::ReadView => Access::ReadOnly,
            Operation::WriteAt { .. } | Operation::WriteAll { .. } | Operation::Fill =>
                Access::WriteOnly,
            Operation::WriteView => Access::ReadWrite,
        }
    }

    /// Why the operation is refused on a buffer of `buffer_len` elements, if
    /// it is.
    pub open spec fn refusal(self, buffer_len: usize) -> Option<BufferError> {
        match self {
            Operation::ReadAt { index } | Operation::WriteAt { index } => index_error(
                index,
                buffer_len,
            ),
            Operation::WriteAll { provided_len } => length_error(provided_len, buffer_len),
            _ => None,
        }
    }
}

/// What the device is asked for before a store can be touched.
#[derive(Clone, Copy, Debug, PartialEq, Eq)]
pub struct MapRequest {
    /// The buffer to map.
    pub handle: u32,
    /// Whether the buffer has to be bound first.
    pub bind: bool,
    /// The access to map the store with.
    pub access: Access,
}

/// What the device is asked for when a view is closed.
#[derive(Clone, Copy, Debug, PartialEq, Eq)]
pub struct UnmapRequest {
    /// The buffer to unmap.
    pub handle: u32,
    /// Whether the buffer has to be bound first.
    pub bind: bool,
}

/// What the device is asked for when a buffer is destroyed.
#[derive(Clone, Copy, Debug, PartialEq, Eq)]
pub struct Release {
    /// The buffer to delete.
    pub handle: u32,
    /// Whether the device has to bind no array buffer first, because the
    /// buffer to delete was the bound one.
    pub unbind: bool,
}

/// A mapped read-only view of a buffer's store.
///
/// The view borrows its buffer, so the buffer outlives it and no read-write
/// view of the same buffer can be open beside it.
pub struct BufferSlice<'a, T> {
    buffer: &'a RawBuffer,
    mapped: &'a [T],
}

/// A mapped read-write view of a buffer's store.
///
/// The view borrows its buffer exclusively, so the buffer outlives it and no
/// other view of the same buffer can be open beside it.
///
/// The fields are open to contracts, which have to say what the two borrows
/// hold when the view is closed.
pub struct BufferSliceMut<'a, T> {
    /// The buffer whose store is mapped.
    pub buffer: &'a mut RawBuffer,
    /// The mapped store.
    pub mapped: &'a mut [T],
}

impl<'a, T> BufferSlice<'a, T> {
    #[verifier::type_invariant]
    spec fn fits(&self) -> bool {
        self.mapped@.len() == self.buffer.len
    }

    /// The buffer whose store is mapped.
    pub closed spec fn buffer(&self) -> RawBuffer {
        *self.buffer
    }
}

impl<'a, T> View for BufferSlice<'a, T> {
    type V = Seq<T>;

    /// The elements of the mapped store.
    closed spec fn view(&self) -> Seq<T> {
        self.mapped@
    }
}

impl<'a, T> BufferSliceMut<'a, T> {
    /// A view is as long as its buffer. Every view that
    /// [`GL::slice_buffer_mut`] opens is; elements can be overwritten but never
    /// added or removed.
    pub open spec fn wf(&self) -> bool {
        self.mapped@.len() == self.buffer.len()
    }
}

impl<'a, T> View for BufferSliceMut<'a, T> {
    type V = Seq<T>;

    /// The elements of the mapped store.
    open spec fn view(&self) -> Seq<T> {
        self.mapped@
    }
}

/// Writes `value` to every element of `mapped`.
fn fill<T: Copy>(mapped: &mut [T], value: T)
    ensures
        final(mapped)@ == filled(old(mapped)@.len(), value),
{
    let len: usize = mapped.len();
    let mut i: usize = 0;
    while i < len
        invariant
            i <= len,
            len == mapped@.len(),
            len == old(mapped)@.len(),
            forall|j: int| 0 <= j < i ==> mapped@[j] == value,
        decreases len - i,
    {
        mapped[i] = value;
        i += 1;
    }
}

impl GL {
    /// Records the buffer of `len` elements of type `T` that the device has
    /// named `handle`, and makes it the bound array buffer. The size of its
    /// store has to be one that [`RawBuffer::byte_size`] can give.
    ///
    /// The device then has to bind `handle`, whatever was bound before, and to
    /// allocate a store of as many bytes as the handle says, uninitialized.
    pub fn new_buffer<T>(&mut self, handle: u32, len: usize) -> (r: Result<RawBuffer, BufferError>)
        requires
            len * size_of::<T>() <= usize::MAX,
        ensures
            r matches Ok(buffer) && buffer.handle() == handle && buffer.len() == len
                && buffer.bytes() == len * size_of::<T>(),
            final(self).state@ == old(self).state@.insert(ResourceKind::ArrayBuffer, handle),
    {
        let bytes: usize = core::mem::size_of::<T>() * len;
        let _ = self.state.bind_array_buffer(handle, Bind::Forced);
        Ok(RawBuffer { handle, bytes, len })
    }

    /// Gives up a buffer. The device has to delete it, after binding no array
    /// buffer in its place if it was the bound one.
    pub fn destroy_buffer(&mut self, buffer: RawBuffer) -> (release: Release)
        ensures
            release.handle == buffer.handle(),
            release.unbind <==> old(self).state.bound_array_buffer() == buffer.handle()
                && buffer.handle() != 0,
            final(self).state@ == unbound(
                old(self).state@,
                ResourceKind::ArrayBuffer,
                buffer.handle(),
            ),
    {
        let unbind: bool = self.state.unbind_buffer(buffer.handle);
        Release { handle: buffer.handle, unbind }
    }

    /// The number of elements of a buffer.
    pub fn len(buffer: &RawBuffer) -> (len: usize)
        ensures
            len == buffer.len(),
    {
        buffer.len
    }

    /// Records the buffer that the device has named `handle` and that is to
    /// hold a copy of `slice`, and makes it the bound array buffer.
    ///
    /// The device then has to bind `handle`, whatever was bound before, and to
    /// allocate a store of as many bytes as the handle says, filled from
    /// `slice`.
    pub fn from_slice<T>(&mut self, handle: u32, slice: &[T]) -> (r: Result<
        RawBuffer,
        BufferError,
    >)
        ensures
            r matches Ok(buffer) && buffer.handle() == handle && buffer.len() == slice@.len()
                && buffer.bytes() == slice@.len() * size_of::<T>(),
            final(self).state@ == old(self).state@.insert(ResourceKind::ArrayBuffer, handle),
    {
        broadcast use vstd::layout::layout_of_slices;

        let len: usize = slice.len();
        let bytes: usize = core::mem::size_of_val(slice);
        let _ = self.state.bind_array_buffer(handle, Bind::Forced);
        Ok(RawBuffer { handle, bytes, len })
    }

    /// The part of `repeat` after the mapping: fills the store of the buffer
    /// that [`GL::new_buffer`] has just recorded, as [`GL::clear`] does, and
    /// hands the buffer out only when every element holds `value`. The device
    /// then has to unmap.
    ///
    /// Where the store could not be filled, the buffer is given up as by
    /// [`GL::destroy_buffer`] and the error is passed on, so that a buffer
    /// that is filled in part, or not at all, is never seen.
    pub fn repeat<T: Copy>(&mut self, buffer: RawBuffer, mapped: Option<&mut [T]>, value: T) -> (r:
        Result<RawBuffer, (BufferError, Release)>)
        requires
            mapped matches Some(m) ==> m@.len() == buffer.len(),
        ensures
            match mapped {
                Some(m) => {
                    &&& r matches Ok(filled_buffer)
                    &&& filled_buffer == buffer
                    &&& final(m)@ == filled(buffer.len() as nat, value)
                    &&& final(self).state@ == old(self).state@
                },
                None => {
                    &&& r matches Err((e, release))
                    &&& e == BufferError::MapFailed
                    &&& release.handle == buffer.handle()
                    &&& release.unbind <==> old(self).state.bound_array_buffer()
                        == buffer.handle() && buffer.handle() != 0
                    &&& final(self).state@ == unbound(
                        old(self).state@,
                        ResourceKind::ArrayBuffer,
                        buffer.handle(),
                    )
                },
            },
    {
        let mut buffer = buffer;
        match GL::clear(&mut buffer, mapped, value) {
            Ok(()) => Ok(buffer),
            Err(e) => {
                let release: Release = self.destroy_buffer(buffer);
                Err((e, release))
            },
        }
    }

    /// The part of an operation before the mapping.
    ///
    /// A refused operation leaves the binding cache as it was, and the device
    /// is not to be touched. Otherwise the buffer becomes the bound array
    /// buffer, by a cached bind, and the request says whether the device has
    /// to bind it and how to map its store.
    pub fn map_request(&mut self, buffer: &RawBuffer, operation: Operation) -> (r: Result<
        MapRequest,
        BufferError,
    >)
        ensures
            match operation.refusal(buffer.len()) {
                Some(e) => r == Err::<MapRequest, BufferError>(e)
                    && final(self).state@ == old(self).state@,
                None => r == Ok::<MapRequest, BufferError>(
                    MapRequest {
                        handle: buffer.handle(),
                        bind: old(self).state.bound_array_buffer() != buffer.handle(),
                        access: operation.access(),
                    },
                ) && final(self).state@ == old(self).state@.insert(
                    ResourceKind::ArrayBuffer,
                    buffer.handle(),
                ),
            },
    {
        let access: Access = match operation {
            Operation::ReadAt { index } => {
                buffer.check_index(index)?;
                Access::ReadOnly
            },
            Operation::WriteAt { index } => {
                buffer.check_index(index)?;
                Access::WriteOnly
            },
            Operation::WriteAll { provided_len } => {
                buffer.check_length(provided_len)?;
                Access::WriteOnly
            },
            Operation::ReadAll | Operation::ReadView => Access::ReadOnly,
            Operation::Fill => Access::WriteOnly,
            Operation::WriteView => Access::ReadWrite,
        };
        let bind: bool = self.state.bind_array_buffer(buffer.handle, Bind::Cached);
        Ok(MapRequest { handle: buffer.handle, bind, access })
    }

    /// Reads element `i` of the mapped store of `buffer`, if there is one.
    pub fn at<T: Copy>(buffer: &RawBuffer, mapped: &[T], i: usize) -> (r: Option<T>)
        requires
            mapped@.len() == buffer.len(),
        ensures
            r == if i < buffer.len() {
                Some(mapped@[i as int])
            } else {
                None
            },
    {
        if i >= buffer.len {
            None
        } else {
            Some(mapped[i])
        }
    }

    /// Copies the whole mapped store of `buffer` into a vector of its own,
    /// which lives on when the store is unmapped.
    pub fn whole<T: Copy>(buffer: &RawBuffer, mapped: &[T]) -> (values: Vec<T>)
        requires
            mapped@.len() == buffer.len(),
        ensures
            values@ == mapped@,
    {
        let len: usize = mapped.len();
        let mut values: Vec<T> = Vec::with_capacity(len);
        let mut i: usize = 0;
        while i < len
            invariant
                i <= len,
                len == mapped@.len(),
                values@ == mapped@.subrange(0, i as int),
            decreases len - i,
        {
            values.push(mapped[i]);
            i += 1;
        }
        values
    }

    /// Writes `x` to element `i` of the store of `buffer`, given what the
    /// device gave for its mapping: the mapped store, or nothing where the
    /// device could not map. An index beyond the end is an error, whatever
    /// became of the mapping; a mapping that failed is an error too. On an
    /// error the store is left as it was.
    pub fn set<T: Copy>(buffer: &mut RawBuffer, mapped: Option<&mut [T]>, i: usize, x: T) -> (r:
        Result<(), BufferError>)
        requires
            mapped matches Some(m) ==> m@.len() == old(buffer).len(),
        ensures
            *final(buffer) == *old(buffer),
            r == match index_error(i, old(buffer).len()) {
                Some(e) => Err::<(), BufferError>(e),
                None => if mapped is Some {
                    Ok(())
                } else {
                    Err(BufferError::MapFailed)
                },
            },
            mapped matches Some(m) ==> final(m)@ == if r is Ok {
                m@.update(i as int, x)
            } else {
                m@
            },
    {
        buffer.check_index(i)?;
        match mapped {
            Some(m) => {
                m[i] = x;
                Ok(())
            },
            None => Err(BufferError::MapFailed),
        }
    }

    /// Overwrites the whole store of `buffer` with `values`, given what the
    /// device gave for its mapping: the mapped store, or nothing where the
    /// device could not map. Only as many values as the buffer holds are
    /// accepted, whatever became of the mapping; a mapping that failed is an
    /// error too. On an error the store is left as it was, so nothing is ever
    /// written in part.
    pub fn write_whole<T: Copy>(buffer: &mut RawBuffer, mapped: Option<&mut [T]>, values: &[T])
        -> (r: Result<(), BufferError>)
        requires
            mapped matches Some(m) ==> m@.len() == old(buffer).len(),
        ensures
            *final(buffer) == *old(buffer),
            r == match length_error(values.len(), old(buffer).len()) {
                Some(e) => Err::<(), BufferError>(e),
                None => if mapped is Some {
                    Ok(())
                } else {
                    Err(BufferError::MapFailed)
                },
            },
            mapped matches Some(m) ==> final(m)@ == written(m@, values@),
    {
        let len: usize = values.len();
        buffer.check_length(len)?;
        match mapped {
            Some(m) => {
                let mut i: usize = 0;
                while i < len
                    invariant
                        i <= len,
                        len == values@.len(),
                        len == m@.len(),
                        forall|j: int| 0 <= j < i ==> m@[j] == values@[j],
                    decreases len - i,
                {
                    m[i] = values[i];
                    i += 1;
                }
                Ok(())
            },
            None => Err(BufferError::MapFailed),
        }
    }

    /// Fills the whole store of `buffer` with `x`: what [`GL::write_whole`]
    /// does with as many copies of `x` as the buffer holds. The only error is
    /// a mapping that failed.
    pub fn clear<T: Copy>(buffer: &mut RawBuffer, mapped: Option<&mut [T]>, x: T) -> (r: Result<
        (),
        BufferError,
    >)
        requires
            mapped matches Some(m) ==> m@.len() == old(buffer).len(),
        ensures
            *final(buffer) == *old(buffer),
            r == if mapped is Some {
                Ok::<(), BufferError>(())
            } else {
                Err(BufferError::MapFailed)
            },
            mapped matches Some(m) ==> final(m)@ == filled(old(buffer).len() as nat, x),
    {
        match mapped {
            Some(m) => {
                fill(m, x);
                Ok(())
            },
            None => Err(BufferError::MapFailed),
        }
    }

    /// Opens a read-only view of a buffer from what the device gave for its
    /// mapping: the mapped store, or nothing where the device could not map.
    pub fn slice_buffer<'a, T>(buffer: &'a RawBuffer, mapped: Option<&'a [T]>) -> (r: Result<
        BufferSlice<'a, T>,
        BufferError,
    >)
        requires
            mapped matches Some(m) ==> m@.len() == buffer.len(),
        ensures
            match mapped {
                Some(m) => r matches Ok(slice) && slice@ == m@ && slice.buffer() == *buffer,
                None => r matches Err(e) && e == BufferError::MapFailed,
            },
    {
        match mapped {
            Some(m) => Ok(BufferSlice { buffer, mapped: m }),
            None => Err(BufferError::MapFailed),
        }
    }

    /// Opens a read-write view of a buffer from what the device gave for its
    /// mapping: the mapped store, or nothing where the device could not map.
    ///
    /// The view takes over both borrows: what the buffer and the store hold
    /// in the end is what the view's borrows hold in the end.
    pub fn slice_buffer_mut<'a, T>(buffer: &'a mut RawBuffer, mapped: Option<&'a mut [T]>) -> (r:
        Result<BufferSliceMut<'a, T>, BufferError>)
        requires
            mapped matches Some(m) ==> m@.len() == old(buffer).len(),
        ensures
            match mapped {
                Some(m) => {
                    &&& r matches Ok(slice)
                    &&& slice.wf()
                    &&& slice.mapped@ == m@
                    &&& *slice.buffer == *old(buffer)
                    &&& final(slice.mapped)@ == final(m)@
                    &&& *final(slice.buffer) == *final(buffer)
                },
                None => {
                    &&& r matches Err(e)
                    &&& e == BufferError::MapFailed
                    &&& *final(buffer) == *old(buffer)
                },
            },
    {
        match mapped {
            Some(m) => Ok(BufferSliceMut { buffer, mapped: m }),
            None => Err(BufferError::MapFailed),
        }
    }

    /// Closes a read-only view. The device has to unmap the buffer, after
    /// binding it again if another buffer was bound in between.
    pub fn destroy_buffer_slice<T>(&mut self, slice: BufferSlice<T>) -> (unmap: UnmapRequest)
        ensures
            unmap.handle == slice.buffer().handle(),
            unmap.bind <==> old(self).state.bound_array_buffer() != slice.buffer().handle(),
            final(self).state@ == old(self).state@.insert(
                ResourceKind::ArrayBuffer,
                slice.buffer().handle(),
            ),
    {
        let handle: u32 = slice.buffer.handle;
        let bind: bool = self.state.bind_array_buffer(handle, Bind::Cached);
        UnmapRequest { handle, bind }
    }

    /// Closes a read-write view. The device has to unmap the buffer, after
    /// binding it again if another buffer was bound in between.
    ///
    /// Closing ends both borrows: the buffer is as it was, and the store holds
    /// what the view held last.
    pub fn destroy_buffer_slice_mut<T>(&mut self, slice: BufferSliceMut<T>) -> (unmap:
        UnmapRequest)
        ensures
            unmap.handle == old(slice.buffer).handle(),
            unmap.bind <==> old(self).state.bound_array_buffer() != old(slice.buffer).handle(),
            final(self).state@ == old(self).state@.insert(
                ResourceKind::ArrayBuffer,
                old(slice.buffer).handle(),
            ),
            *final(slice.buffer) == *old(slice.buffer),
            final(slice.mapped)@ == old(slice.mapped)@,
    {
        let handle: u32 = slice.buffer.handle;
        let bind: bool = self.state.bind_array_buffer(handle, Bind::Cached);
        UnmapRequest { handle, bind }
    }

    /// The elements of an open read-only view, as many as the buffer holds.
    pub fn obtain_slice<'b, T>(slice: &'b BufferSlice<T>) -> (r: Result<&'b [T], BufferError>)
        ensures
            r matches Ok(elements) && elements@ == slice@ && elements@.len()
                == slice.buffer().len(),
    {
        proof {
            use_type_invariant(slice);
        }
        Ok(slice.mapped)
    }

    /// The elements of an open read-write view. What is written to them is
    /// written to the store; the view keeps its buffer and its borrows.
    pub fn obtain_slice_mut<'b, T>(slice: &'b mut BufferSliceMut<T>) -> (r: Result<
        &'b mut [T],
        BufferError,
    >)
        ensures
            r matches Ok(elements) && elements@ == old(slice).mapped@,
            r matches Ok(elements) && final(slice).mapped@ == final(elements)@,
            *final(slice).buffer == *old(slice).buffer,
            *final(final(slice).buffer) == *final(old(slice).buffer),
            final(final(slice).mapped)@ == final(old(slice).mapped)@,
    {
        Ok(&mut *slice.mapped)
    }
}

} // verus!
