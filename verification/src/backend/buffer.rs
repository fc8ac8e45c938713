//! Buffer backend.

use vstd::prelude::*;

verus! {

/// Buffer errors.
#[derive(Clone, Copy, Debug, PartialEq, Eq)]
pub enum BufferError {
    /// An element was addressed beyond the end of the buffer.
    Overflow {
        /// The index that was asked for.
        index: usize,
        /// The number of elements of the buffer.
        buffer_len: usize,
    },
    /// A whole-buffer write brought fewer values than the buffer holds.
    TooFewValues {
        /// The number of values that were provided.
        provided_len: usize,
        /// The number of elements of the buffer.
        buffer_len: usize,
    },
    /// A whole-buffer write brought more values than the buffer holds.
    TooManyValues {
        /// The number of values that were provided.
        provided_len: usize,
        /// The number of elements of the buffer.
        buffer_len: usize,
    },
    /// The device could not map the buffer into host memory.
    MapFailed,
}

/// The error of addressing element `index` of a buffer of `buffer_len`
/// elements, if there is one.
pub open spec fn index_error(index: usize, buffer_len: usize) -> Option<BufferError> {
    if index >= buffer_len {
        Some(BufferError::Overflow { index, buffer_len })
    } else {
        None
    }
}

/// The error of overwriting a whole buffer of `buffer_len` elements with
/// `provided_len` values, if there is one: only the exact length is accepted.
pub open spec fn length_error(provided_len: usize, buffer_len: usize) -> Option<BufferError> {
    if provided_len < buffer_len {
        Some(BufferError::TooFewValues { provided_len, buffer_len })
    } else if provided_len > buffer_len {
        Some(BufferError::TooManyValues { provided_len, buffer_len })
    } else {
        None
    }
}

/// The store that a whole-buffer write of `values` leaves in place of `store`:
/// `values` if there are as many of them as the store holds, else `store`
/// as it was.
pub open spec fn written<T>(store: Seq<T>, values: Seq<T>) -> Seq<T> {
    if values.len() == store.len() {
        values
    } else {
        store
    }
}

/// The store of `len` elements that all hold `value`.
pub open spec fn filled<T>(len: nat, value: T) -> Seq<T> {
    Seq::new(len, |i: int| value)
}

/// A whole-buffer write with another number of values than the buffer holds
/// fails, with too few values or too many as the case may be, and leaves the
/// store as it was.
pub proof fn lemma_length_mismatch_writes_nothing<T>(store: Seq<T>, values: Seq<T>)
    requires
        store.len() <= usize::MAX,
        values.len() <= usize::MAX,
        values.len() != store.len(),
    ensures
        written(store, values) == store,
        values.len() < store.len() ==> length_error(values.len() as usize, store.len() as usize)
            == Some(
            BufferError::TooFewValues {
                provided_len: values.len() as usize,
                buffer_len: store.len() as usize,
            },
        ),
        values.len() > store.len() ==> length_error(values.len() as usize, store.len() as usize)
            == Some(
            BufferError::TooManyValues {
                provided_len: values.len() as usize,
                buffer_len: store.len() as usize,
            },
        ),
{
}

/// Round trip: a whole-buffer write of as many values as the buffer holds is
/// accepted, and the store then holds exactly these values, so that reading
/// the whole store gives them back.
pub proof fn lemma_write_whole_round_trip<T>(store: Seq<T>, values: Seq<T>)
    requires
        store.len() <= usize::MAX,
        values.len() == store.len(),
    ensures
        length_error(values.len() as usize, store.len() as usize) is None,
        written(store, values) == values,
{
}

/// Filling is writing the whole store with as many copies of the value as it
/// holds: it never fails, every element then holds the value, and filling
/// again with the same value changes nothing.
pub proof fn lemma_fill<T>(store: Seq<T>, value: T)
    requires
        store.len() <= usize::MAX,
    ensures
        filled(store.len(), value).len() == store.len(),
        forall|i: int| 0 <= i < store.len() ==> filled(store.len(), value)[i] == value,
        length_error(filled(store.len(), value).len() as usize, store.len() as usize) is None,
        written(store, filled(store.len(), value)) == filled(store.len(), value),
        filled(filled(store.len(), value).len(), value) == filled(store.len(), value),
{
}

/// An element that was written is the element that is read at its index, and
/// the elements at the other indices are as they were.
pub proof fn lemma_set_then_at<T>(store: Seq<T>, i: int, x: T)
    requires
        0 <= i < store.len(),
    ensures
        store.update(i, x).len() == store.len(),
        store.update(i, x)[i] == x,
        forall|j: int| 0 <= j < store.len() && j != i ==> store.update(i, x)[j] == store[j],
{
}

} // verus!
