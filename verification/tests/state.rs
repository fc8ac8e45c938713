use luminance::backend::gl::state::{Bind, GLState, ResourceKind};

#[test]
fn cache_starts_from_what_the_device_reports() {
    let state = GLState::new(0, 0);
    assert_eq!(state.bound_array_buffer(), 0);
    assert_eq!(state.bound(ResourceKind::Framebuffer), 0);
    let state = GLState::new(12, 7);
    assert_eq!(state.bound_array_buffer(), 12);
    assert_eq!(state.bound(ResourceKind::ArrayBuffer), 12);
    assert_eq!(state.bound(ResourceKind::Framebuffer), 7);
}

#[test]
fn cached_bind_is_issued_only_for_another_buffer() {
    let mut state = GLState::new(0, 0);
    assert!(state.bind_array_buffer(3, Bind::Cached));
    assert_eq!(state.bound_array_buffer(), 3);
    assert!(!state.bind_array_buffer(3, Bind::Cached));
    assert_eq!(state.bound_array_buffer(), 3);
    assert!(state.bind_array_buffer(4, Bind::Cached));
    assert_eq!(state.bound_array_buffer(), 4);
}

#[test]
fn forced_bind_is_always_issued() {
    let mut state = GLState::new(3, 0);
    assert!(state.bind_array_buffer(3, Bind::Forced));
    assert_eq!(state.bound_array_buffer(), 3);
    assert!(state.bind_array_buffer(5, Bind::Forced));
    assert_eq!(state.bound_array_buffer(), 5);
}

#[test]
fn binding_is_idempotent() {
    let mut state = GLState::new(0, 0);
    state.bind(ResourceKind::Framebuffer, 9, Bind::Cached);
    assert!(!state.bind(ResourceKind::Framebuffer, 9, Bind::Cached));
    assert_eq!(state.bound(ResourceKind::Framebuffer), 9);
    assert_eq!(state.bound(ResourceKind::ArrayBuffer), 0);
}

#[test]
fn kinds_are_bound_independently() {
    let mut state = GLState::new(1, 2);
    assert!(state.bind(ResourceKind::ArrayBuffer, 2, Bind::Cached));
    assert_eq!(state.bound(ResourceKind::ArrayBuffer), 2);
    assert_eq!(state.bound(ResourceKind::Framebuffer), 2);
    assert!(state.bind(ResourceKind::Framebuffer, 1, Bind::Cached));
    assert_eq!(state.bound(ResourceKind::ArrayBuffer), 2);
    assert_eq!(state.bound(ResourceKind::Framebuffer), 1);
    assert!(!state.unbind(ResourceKind::Framebuffer, 2));
    assert_eq!(state.bound(ResourceKind::ArrayBuffer), 2);
    assert_eq!(state.bound(ResourceKind::Framebuffer), 1);
    assert!(state.unbind(ResourceKind::Framebuffer, 1));
    assert_eq!(state.bound(ResourceKind::ArrayBuffer), 2);
    assert_eq!(state.bound(ResourceKind::Framebuffer), 0);
}

#[test]
fn unbinding_the_bound_buffer_leaves_none_bound() {
    let mut state = GLState::new(6, 6);
    assert!(state.unbind_buffer(6));
    assert_eq!(state.bound_array_buffer(), 0);
    assert_eq!(state.bound(ResourceKind::Framebuffer), 6);
}

#[test]
fn unbinding_another_buffer_changes_nothing() {
    let mut state = GLState::new(6, 0);
    assert!(!state.unbind_buffer(7));
    assert_eq!(state.bound_array_buffer(), 6);
}

#[test]
fn unbinding_no_buffer_is_never_issued() {
    let mut state = GLState::new(0, 0);
    assert!(!state.unbind_buffer(0));
    assert_eq!(state.bound_array_buffer(), 0);
}
