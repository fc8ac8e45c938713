use luminance::backend::buffer::BufferError;
use luminance::backend::gl::buffer::{Access, MapRequest, Operation, RawBuffer, Release};
use luminance::backend::gl::state::GLState;
use luminance::backend::gl::GL;

fn backend() -> GL {
    GL::new(GLState::new(0, 0))
}

fn buffer_of(gl: &mut GL, handle: u32, len: usize) -> RawBuffer {
    gl.new_buffer::<u32>(handle, len).unwrap()
}

#[test]
fn new_buffer_holds_the_length_asked_for() {
    let mut gl = backend();
    for len in [0usize, 1, 4, 1000] {
        let buffer = gl.new_buffer::<u32>(1, len).unwrap();
        assert_eq!(GL::len(&buffer), len);
        assert_eq!(buffer.len(), len);
    }
}

#[test]
fn new_buffer_keeps_the_name_the_device_gave() {
    let mut gl = backend();
    let buffer = gl.new_buffer::<u8>(77, 3).unwrap();
    assert_eq!(buffer.handle(), 77);
}

#[test]
fn new_buffer_sizes_the_store_by_the_element() {
    let mut gl = backend();
    assert_eq!(gl.new_buffer::<u8>(1, 4).unwrap().bytes(), 4);
    assert_eq!(gl.new_buffer::<u32>(1, 4).unwrap().bytes(), 16);
    assert_eq!(gl.new_buffer::<u64>(1, 4).unwrap().bytes(), 32);
    assert_eq!(gl.new_buffer::<[f32; 3]>(1, 5).unwrap().bytes(), 60);
    assert_eq!(gl.new_buffer::<()>(1, 9).unwrap().bytes(), 0);
    assert_eq!(gl.new_buffer::<u32>(1, 0).unwrap().bytes(), 0);
}

#[test]
fn byte_size_is_length_times_element_size() {
    assert_eq!(RawBuffer::byte_size::<u32>(4), Some(16));
    assert_eq!(RawBuffer::byte_size::<u8>(0), Some(0));
    assert_eq!(RawBuffer::byte_size::<()>(usize::MAX), Some(0));
    assert_eq!(RawBuffer::byte_size::<u8>(usize::MAX), Some(usize::MAX));
    assert_eq!(RawBuffer::byte_size::<u16>(usize::MAX), None);
    assert_eq!(RawBuffer::byte_size::<u64>(usize::MAX / 8 + 1), None);
    assert_eq!(RawBuffer::byte_size::<u64>(usize::MAX / 8), Some(usize::MAX / 8 * 8));
}

#[test]
fn new_buffer_becomes_the_bound_buffer() {
    let mut gl = GL::new(GLState::new(5, 0));
    let _ = gl.new_buffer::<u32>(8, 2).unwrap();
    assert_eq!(gl.state.bound_array_buffer(), 8);
    let _ = gl.new_buffer::<u32>(8, 2).unwrap();
    assert_eq!(gl.state.bound_array_buffer(), 8);
}

#[test]
fn from_slice_takes_length_and_size_from_the_slice() {
    let mut gl = backend();
    let source = [10u16, 20, 30];
    let buffer = gl.from_slice(4, &source).unwrap();
    assert_eq!(buffer.handle(), 4);
    assert_eq!(GL::len(&buffer), 3);
    assert_eq!(buffer.bytes(), 6);
    assert_eq!(gl.state.bound_array_buffer(), 4);
}

#[test]
fn from_slice_of_nothing_is_an_empty_buffer() {
    let mut gl = backend();
    let source: [u32; 0] = [];
    let buffer = gl.from_slice(4, &source).unwrap();
    assert_eq!(GL::len(&buffer), 0);
    assert_eq!(buffer.bytes(), 0);
}

#[test]
fn from_slice_then_whole_gives_the_slice_back() {
    let mut gl = backend();
    let source = vec![3u32, 1, 4, 1, 5];
    let buffer = gl.from_slice(2, &source).unwrap();
    // the device fills the new store from the slice it was given
    let store = source.clone();
    assert_eq!(GL::whole(&buffer, &store), source);
}

#[test]
fn read_at_beyond_the_end_is_none() {
    let mut gl = backend();
    let buffer = buffer_of(&mut gl, 1, 3);
    let store = [1u32, 2, 3];
    assert_eq!(GL::at(&buffer, &store, 3), None);
    assert_eq!(GL::at(&buffer, &store, 4), None);
    assert_eq!(GL::at(&buffer, &store, usize::MAX), None);
}

#[test]
fn read_at_within_the_buffer_is_the_element() {
    let mut gl = backend();
    let buffer = buffer_of(&mut gl, 1, 3);
    let store = [1u32, 2, 3];
    assert_eq!(GL::at(&buffer, &store, 0), Some(1));
    assert_eq!(GL::at(&buffer, &store, 2), Some(3));
}

#[test]
fn read_at_in_an_empty_buffer_is_none() {
    let mut gl = backend();
    let buffer = buffer_of(&mut gl, 1, 0);
    let store: [u32; 0] = [];
    assert_eq!(GL::at(&buffer, &store, 0), None);
}

#[test]
fn write_at_beyond_the_end_overflows() {
    let mut gl = backend();
    let mut buffer = buffer_of(&mut gl, 1, 3);
    let mut store = [1u32, 2, 3];
    assert_eq!(
        GL::set(&mut buffer, Some(&mut store[..]), 3, 9),
        Err(BufferError::Overflow { index: 3, buffer_len: 3 })
    );
    assert_eq!(
        GL::set(&mut buffer, Some(&mut store[..]), 100, 9),
        Err(BufferError::Overflow { index: 100, buffer_len: 3 })
    );
    assert_eq!(store, [1, 2, 3]);
}

#[test]
fn write_at_within_the_buffer_changes_one_element() {
    let mut gl = backend();
    let mut buffer = buffer_of(&mut gl, 1, 3);
    let mut store = [1u32, 2, 3];
    assert_eq!(GL::set(&mut buffer, Some(&mut store[..]), 1, 9), Ok(()));
    assert_eq!(store, [1, 9, 3]);
    assert_eq!(GL::at(&buffer, &store, 1), Some(9));
    assert_eq!(GL::len(&buffer), 3);
}

#[test]
fn write_whole_with_too_few_values_writes_nothing() {
    let mut gl = backend();
    let mut buffer = buffer_of(&mut gl, 1, 4);
    let mut store = [1u32, 2, 3, 4];
    assert_eq!(
        GL::write_whole(&mut buffer, Some(&mut store[..]), &[7, 7, 7]),
        Err(BufferError::TooFewValues { provided_len: 3, buffer_len: 4 })
    );
    assert_eq!(store, [1, 2, 3, 4]);
    assert_eq!(
        GL::write_whole(&mut buffer, Some(&mut store[..]), &[]),
        Err(BufferError::TooFewValues { provided_len: 0, buffer_len: 4 })
    );
    assert_eq!(store, [1, 2, 3, 4]);
}

#[test]
fn write_whole_with_too_many_values_writes_nothing() {
    let mut gl = backend();
    let mut buffer = buffer_of(&mut gl, 1, 4);
    let mut store = [1u32, 2, 3, 4];
    assert_eq!(
        GL::write_whole(&mut buffer, Some(&mut store[..]), &[7, 7, 7, 7, 7]),
        Err(BufferError::TooManyValues { provided_len: 5, buffer_len: 4 })
    );
    assert_eq!(store, [1, 2, 3, 4]);
}

#[test]
fn write_whole_then_whole_is_a_round_trip() {
    let mut gl = backend();
    let mut buffer = buffer_of(&mut gl, 1, 5);
    let mut store = [0u32; 5];
    let values = [2u32, 7, 1, 8, 2];
    assert_eq!(GL::write_whole(&mut buffer, Some(&mut store[..]), &values), Ok(()));
    assert_eq!(GL::whole(&buffer, &store), values.to_vec());
}

#[test]
fn write_whole_of_an_empty_buffer_takes_no_values() {
    let mut gl = backend();
    let mut buffer = buffer_of(&mut gl, 1, 0);
    let mut store: [u32; 0] = [];
    assert_eq!(GL::write_whole(&mut buffer, Some(&mut store[..]), &[]), Ok(()));
    assert_eq!(
        GL::write_whole(&mut buffer, Some(&mut store[..]), &[1]),
        Err(BufferError::TooManyValues { provided_len: 1, buffer_len: 0 })
    );
}

#[test]
fn writes_without_a_mapping_fail() {
    let mut gl = backend();
    let mut buffer = buffer_of(&mut gl, 1, 3);
    assert_eq!(GL::set::<u32>(&mut buffer, None, 1, 9), Err(BufferError::MapFailed));
    assert_eq!(GL::write_whole::<u32>(&mut buffer, None, &[1, 2, 3]), Err(BufferError::MapFailed));
    assert_eq!(GL::clear::<u32>(&mut buffer, None, 9), Err(BufferError::MapFailed));
    assert_eq!(GL::len(&buffer), 3);
}

#[test]
fn a_wrong_argument_is_reported_before_a_failed_mapping() {
    let mut gl = backend();
    let mut buffer = buffer_of(&mut gl, 1, 3);
    assert_eq!(
        GL::set::<u32>(&mut buffer, None, 3, 9),
        Err(BufferError::Overflow { index: 3, buffer_len: 3 })
    );
    assert_eq!(
        GL::write_whole::<u32>(&mut buffer, None, &[1, 2]),
        Err(BufferError::TooFewValues { provided_len: 2, buffer_len: 3 })
    );
    assert_eq!(
        GL::write_whole::<u32>(&mut buffer, None, &[1, 2, 3, 4]),
        Err(BufferError::TooManyValues { provided_len: 4, buffer_len: 3 })
    );
}

#[test]
fn whole_is_a_copy_of_its_own() {
    let mut gl = backend();
    let mut buffer = buffer_of(&mut gl, 1, 3);
    let mut store = [4u32, 5, 6];
    let copy = GL::whole(&buffer, &store);
    GL::set(&mut buffer, Some(&mut store[..]), 0, 0).unwrap();
    assert_eq!(copy, vec![4, 5, 6]);
}

#[test]
fn fill_sets_every_element() {
    let mut gl = backend();
    let mut buffer = buffer_of(&mut gl, 1, 4);
    let mut store = [1u32, 2, 3, 4];
    assert_eq!(GL::clear(&mut buffer, Some(&mut store[..]), 9), Ok(()));
    assert_eq!(GL::whole(&buffer, &store), vec![9, 9, 9, 9]);
}

#[test]
fn fill_twice_is_fill_once() {
    let mut gl = backend();
    let mut buffer = buffer_of(&mut gl, 1, 3);
    let mut store = [1u32, 2, 3];
    GL::clear(&mut buffer, Some(&mut store[..]), 6).unwrap();
    let once = GL::whole(&buffer, &store);
    GL::clear(&mut buffer, Some(&mut store[..]), 6).unwrap();
    assert_eq!(GL::whole(&buffer, &store), once);
}

#[test]
fn fill_is_write_whole_with_copies() {
    let mut gl = backend();
    let mut buffer = buffer_of(&mut gl, 1, 3);
    let mut filled = [1u32, 2, 3];
    let mut written = [1u32, 2, 3];
    GL::clear(&mut buffer, Some(&mut filled[..]), 8).unwrap();
    GL::write_whole(&mut buffer, Some(&mut written[..]), &vec![8; 3]).unwrap();
    assert_eq!(filled, written);
}

#[test]
fn write_all_then_read_at_gives_the_element_written() {
    let mut gl = backend();
    // the device names a new buffer 1; its store is not initialized
    let mut buffer = gl.new_buffer::<u32>(1, 4).unwrap();
    let mut store = [0xdead_beef_u32; 4];

    let request = gl.map_request(&buffer, Operation::WriteAll { provided_len: 4 }).unwrap();
    assert_eq!(request, MapRequest { handle: 1, bind: false, access: Access::WriteOnly });
    assert_eq!(GL::write_whole(&mut buffer, Some(&mut store[..]), &[1, 2, 3, 4]), Ok(()));

    let request = gl.map_request(&buffer, Operation::ReadAt { index: 2 }).unwrap();
    assert_eq!(request, MapRequest { handle: 1, bind: false, access: Access::ReadOnly });
    assert_eq!(GL::at(&buffer, &store, 2), Some(3));
}

#[test]
fn repeat_then_whole_gives_the_value_throughout() {
    let mut gl = backend();
    let buffer = gl.new_buffer::<u32>(1, 3).unwrap();
    let mut store = [0u32; 3];
    let request = gl.map_request(&buffer, Operation::Fill).unwrap();
    assert_eq!(request.access, Access::WriteOnly);
    let buffer = gl.repeat(buffer, Some(&mut store[..]), 7).unwrap();
    assert_eq!(GL::len(&buffer), 3);
    assert_eq!(GL::whole(&buffer, &store), vec![7, 7, 7]);
}

#[test]
fn write_through_a_view_is_read_back_after_closing() {
    let mut gl = backend();
    let mut buffer = gl.new_buffer::<u32>(1, 3).unwrap();
    let mut store = [1u32, 2, 3];

    let request = gl.map_request(&buffer, Operation::WriteView).unwrap();
    assert_eq!(request.access, Access::ReadWrite);
    let mut view = GL::slice_buffer_mut(&mut buffer, Some(&mut store[..])).unwrap();
    let elements = GL::obtain_slice_mut(&mut view).unwrap();
    assert_eq!(elements.len(), 3);
    elements[0] = 9;
    let unmap = gl.destroy_buffer_slice_mut(view);
    assert_eq!(unmap.handle, 1);
    assert!(!unmap.bind);

    assert_eq!(GL::at(&buffer, &store, 0), Some(9));
    assert_eq!(GL::whole(&buffer, &store), vec![9, 2, 3]);
}

#[test]
fn repeat_without_a_mapping_gives_the_buffer_up() {
    let mut gl = backend();
    let buffer = gl.new_buffer::<u32>(4, 3).unwrap();
    let (error, release) = gl.repeat::<u32>(buffer, None, 7).unwrap_err();
    assert_eq!(error, BufferError::MapFailed);
    assert_eq!(release, Release { handle: 4, unbind: true });
    assert_eq!(gl.state.bound_array_buffer(), 0);
}

#[test]
fn repeat_of_no_elements_is_an_empty_buffer() {
    let mut gl = backend();
    let buffer = gl.new_buffer::<u32>(4, 0).unwrap();
    let mut store: [u32; 0] = [];
    let buffer = gl.repeat(buffer, Some(&mut store[..]), 7).unwrap();
    assert_eq!(GL::len(&buffer), 0);
    assert_eq!(GL::whole(&buffer, &store), Vec::<u32>::new());
}

#[test]
fn read_view_shows_the_store() {
    let mut gl = backend();
    let buffer = buffer_of(&mut gl, 1, 3);
    let store = [5u32, 6, 7];
    let request = gl.map_request(&buffer, Operation::ReadView).unwrap();
    assert_eq!(request.access, Access::ReadOnly);
    let view = GL::slice_buffer(&buffer, Some(&store[..])).unwrap();
    assert_eq!(GL::obtain_slice(&view).unwrap(), &[5, 6, 7]);
    let unmap = gl.destroy_buffer_slice(view);
    assert_eq!(unmap.handle, 1);
    assert!(!unmap.bind);
}

#[test]
fn read_views_can_be_open_side_by_side() {
    let mut gl = backend();
    let buffer = buffer_of(&mut gl, 1, 2);
    let store = [5u32, 6];
    let first = GL::slice_buffer(&buffer, Some(&store[..])).unwrap();
    let second = GL::slice_buffer(&buffer, Some(&store[..])).unwrap();
    assert_eq!(GL::obtain_slice(&first).unwrap(), GL::obtain_slice(&second).unwrap());
    gl.destroy_buffer_slice(first);
    gl.destroy_buffer_slice(second);
}

#[test]
fn read_view_without_a_mapping_fails() {
    let mut gl = backend();
    let buffer = buffer_of(&mut gl, 1, 3);
    let view = GL::slice_buffer::<u32>(&buffer, None);
    assert_eq!(view.err(), Some(BufferError::MapFailed));
}

#[test]
fn write_view_without_a_mapping_fails() {
    let mut gl = backend();
    let mut buffer = buffer_of(&mut gl, 1, 3);
    let view = GL::slice_buffer_mut::<u32>(&mut buffer, None);
    assert_eq!(view.err(), Some(BufferError::MapFailed));
    assert_eq!(GL::len(&buffer), 3);
}

#[test]
fn closing_a_view_binds_its_buffer_again_if_another_was_bound() {
    let mut gl = backend();
    let first = buffer_of(&mut gl, 1, 2);
    let store = [5u32, 6];
    let view = GL::slice_buffer(&first, Some(&store[..])).unwrap();
    let _second = buffer_of(&mut gl, 2, 2);
    assert_eq!(gl.state.bound_array_buffer(), 2);
    let unmap = gl.destroy_buffer_slice(view);
    assert_eq!(unmap.handle, 1);
    assert!(unmap.bind);
    assert_eq!(gl.state.bound_array_buffer(), 1);
}

#[test]
fn request_binds_only_a_buffer_that_is_not_bound() {
    let mut gl = backend();
    let first = buffer_of(&mut gl, 1, 2);
    let second = buffer_of(&mut gl, 2, 2);
    // the second buffer was bound last
    let request = gl.map_request(&second, Operation::ReadAll).unwrap();
    assert_eq!(request, MapRequest { handle: 2, bind: false, access: Access::ReadOnly });
    let request = gl.map_request(&first, Operation::ReadAll).unwrap();
    assert_eq!(request, MapRequest { handle: 1, bind: true, access: Access::ReadOnly });
    assert_eq!(gl.state.bound_array_buffer(), 1);
    let request = gl.map_request(&first, Operation::ReadAll).unwrap();
    assert!(!request.bind);
}

#[test]
fn request_maps_by_what_the_operation_does() {
    let mut gl = backend();
    let buffer = buffer_of(&mut gl, 1, 2);
    let access = |gl: &mut GL, operation: Operation| gl.map_request(&buffer, operation).unwrap().access;
    assert_eq!(access(&mut gl, Operation::ReadAt { index: 1 }), Access::ReadOnly);
    assert_eq!(access(&mut gl, Operation::ReadAll), Access::ReadOnly);
    assert_eq!(access(&mut gl, Operation::ReadView), Access::ReadOnly);
    assert_eq!(access(&mut gl, Operation::WriteAt { index: 1 }), Access::WriteOnly);
    assert_eq!(access(&mut gl, Operation::WriteAll { provided_len: 2 }), Access::WriteOnly);
    assert_eq!(access(&mut gl, Operation::Fill), Access::WriteOnly);
    assert_eq!(access(&mut gl, Operation::WriteView), Access::ReadWrite);
}

#[test]
fn refused_request_leaves_the_cache_alone() {
    let mut gl = backend();
    let first = buffer_of(&mut gl, 1, 2);
    let _second = buffer_of(&mut gl, 2, 2);
    assert_eq!(
        gl.map_request(&first, Operation::ReadAt { index: 2 }),
        Err(BufferError::Overflow { index: 2, buffer_len: 2 })
    );
    assert_eq!(
        gl.map_request(&first, Operation::WriteAt { index: 5 }),
        Err(BufferError::Overflow { index: 5, buffer_len: 2 })
    );
    assert_eq!(
        gl.map_request(&first, Operation::WriteAll { provided_len: 1 }),
        Err(BufferError::TooFewValues { provided_len: 1, buffer_len: 2 })
    );
    assert_eq!(
        gl.map_request(&first, Operation::WriteAll { provided_len: 3 }),
        Err(BufferError::TooManyValues { provided_len: 3, buffer_len: 2 })
    );
    assert_eq!(gl.state.bound_array_buffer(), 2);
}

#[test]
fn destroying_the_bound_buffer_unbinds_it_first() {
    let mut gl = backend();
    let buffer = buffer_of(&mut gl, 3, 2);
    assert_eq!(gl.destroy_buffer(buffer), Release { handle: 3, unbind: true });
    assert_eq!(gl.state.bound_array_buffer(), 0);
}

#[test]
fn destroying_another_buffer_leaves_the_bound_one() {
    let mut gl = backend();
    let first = buffer_of(&mut gl, 3, 2);
    let _second = buffer_of(&mut gl, 4, 2);
    assert_eq!(gl.destroy_buffer(first), Release { handle: 3, unbind: false });
    assert_eq!(gl.state.bound_array_buffer(), 4);
}

#[test]
fn checks_name_the_index_and_the_length() {
    let mut gl = backend();
    let buffer = buffer_of(&mut gl, 1, 2);
    assert_eq!(buffer.check_index(0), Ok(()));
    assert_eq!(buffer.check_index(1), Ok(()));
    assert_eq!(buffer.check_index(2), Err(BufferError::Overflow { index: 2, buffer_len: 2 }));
    assert_eq!(buffer.check_length(2), Ok(()));
    assert_eq!(
        buffer.check_length(1),
        Err(BufferError::TooFewValues { provided_len: 1, buffer_len: 2 })
    );
    assert_eq!(
        buffer.check_length(3),
        Err(BufferError::TooManyValues { provided_len: 3, buffer_len: 2 })
    );
}
