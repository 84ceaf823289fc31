use cpython_gen::descriptor::{
    checked_downcast, DowncastError, InitError, InitState, TypeDescriptorState,
};

#[test]
fn first_lookup_initializes_and_caches() {
    let mut slot = TypeDescriptorState::new();
    assert_eq!(slot.state, InitState::Uninitialized);
    assert_eq!(slot.type_of(Some(7)), Ok(7));
    assert_eq!(slot.state, InitState::Ready);
    assert_eq!(slot.cached, Some(7));
}

#[test]
fn ready_lookup_is_idempotent_and_ignores_the_host() {
    let mut slot = TypeDescriptorState::new();
    assert_eq!(slot.type_of(Some(7)), Ok(7));
    // Once ready, the cached descriptor comes back unchanged; no further
    // host outcome is consumed.
    assert_eq!(slot.type_of(None), Ok(7));
    assert_eq!(slot.type_of(Some(99)), Ok(7));
    assert_eq!(slot.state, InitState::Ready);
    assert_eq!(slot.cached, Some(7));
}

#[test]
fn reentrant_initialization_fails_fast() {
    // A property accessor wired to request its own type's descriptor
    // during construction re-enters while the guard is set: the call must
    // fail synchronously, never hang, and must not disturb the state.
    let mut slot = TypeDescriptorState { state: InitState::Initializing, cached: None };
    assert_eq!(slot.type_of(Some(7)), Err(InitError::Reentrant));
    assert_eq!(slot.state, InitState::Initializing);
    assert_eq!(slot.cached, None);
    assert_eq!(slot.initialize(Some(7)), Err(InitError::Reentrant));
    assert_eq!(slot.state, InitState::Initializing);
}

#[test]
fn failed_initialization_resets_the_guard_and_retries() {
    let mut slot = TypeDescriptorState::new();
    assert_eq!(slot.type_of(None), Err(InitError::Failed));
    // Not ready, guard reset: the next call retries from the start.
    assert_eq!(slot.state, InitState::Uninitialized);
    assert_eq!(slot.cached, None);
    assert_eq!(slot.type_of(Some(3)), Ok(3));
    assert_eq!(slot.state, InitState::Ready);
}

#[test]
fn downcast_succeeds_only_on_the_registered_descriptor() {
    assert_eq!(checked_downcast(5, 5), Ok(()));
    assert_eq!(checked_downcast(5, 6), Err(DowncastError::TypeMismatch));
    assert_eq!(checked_downcast(0, 5), Err(DowncastError::TypeMismatch));
}
