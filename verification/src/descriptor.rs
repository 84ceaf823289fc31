//! A model of the runtime protocol the emitted fragments implement: the
//! per-type lazily initialized type descriptor with its reentrancy guard,
//! and the checked downcast against a registered descriptor.
//!
//! The emitted program runs under a host runtime whose global lock lets
//! only one logical thread execute protocol code at a time; under that
//! assumption the reentrancy guard below is sufficient. What only the host
//! can do — readying the descriptor — enters [`TypeDescriptorState::type_of`]
//! as the outcome of that call, so the state machine is covered for every
//! outcome.

use vstd::prelude::*;

verus! {

/// The initialization state of one generated type's descriptor.
#[derive(Clone, Copy, Debug, PartialEq, Eq, Structural)]
pub enum InitState {
    /// No initialization has completed; the next lookup initializes.
    Uninitialized,
    /// An initializer is running; a second entry is a fatal error.
    Initializing,
    /// The descriptor is built and cached; lookups return it unchanged.
    Ready,
}

/// A failure of descriptor initialization.
#[derive(Clone, Copy, Debug, PartialEq, Eq, Structural)]
pub enum InitError {
    /// The initializer was entered again while already running — for
    /// example through an accessor that asks for its own type's descriptor
    /// during construction. Fatal for the generated program.
    Reentrant,
    /// The host runtime failed to ready the descriptor; a later lookup
    /// retries from the start.
    Failed,
}

/// A failed checked downcast.
#[derive(Clone, Copy, Debug, PartialEq, Eq, Structural)]
pub enum DowncastError {
    /// The handle's runtime type is not the registered descriptor.
    TypeMismatch,
}

/// The per-type descriptor singleton: its state and, once ready, the
/// cached descriptor handle.
pub struct TypeDescriptorState {
    pub state: InitState,
    pub cached: Option<u64>,
}

impl TypeDescriptorState {
    /// The descriptor handle is cached exactly in the `Ready` state.
    pub open spec fn wf(&self) -> bool {
        (self.state is Ready <==> self.cached is Some) && (self.state is Initializing
            ==> self.cached is None)
    }

    /// A fresh, uninitialized descriptor slot.
    pub fn new() -> (r: Self)
        ensures
            r.state is Uninitialized,
            r.cached is None,
            r.wf(),
    {
        TypeDescriptorState { state: InitState::Uninitialized, cached: None }
    }

    /// One initialization attempt. `ready_outcome` is what the host
    /// runtime's readying call returned: the new descriptor handle, or
    /// nothing on failure.
    ///
    /// Already `Ready`: returns the cached handle and changes nothing.
    /// Entered while `Initializing` — a reentrant call — it fails fast
    /// with [`InitError::Reentrant`], changing nothing and never blocking.
    /// From `Uninitialized`, the guard is set for the initializer's
    /// duration and reset whatever the outcome: on success the handle is
    /// cached and the state becomes `Ready`; on failure the state returns
    /// to `Uninitialized`, so a later call retries from the start.
    pub fn initialize(&mut self, ready_outcome: Option<u64>) -> (r: Result<u64, InitError>)
        requires
            old(self).wf(),
        ensures
            final(self).wf(),
            old(self).state is Ready ==> *final(self) == *old(self) && (
            old(self).cached matches Some(h) && r == Ok::<u64, InitError>(h)),
            old(self).state is Initializing ==> *final(self) == *old(self) && r == Err::<
                u64,
                InitError,
            >(InitError::Reentrant),
            old(self).state is Uninitialized ==> match ready_outcome {
                Some(h) => final(self).state is Ready && final(self).cached == Some(h) && r == Ok::<
                    u64,
                    InitError,
                >(h),
                None => final(self).state is Uninitialized && final(self).cached is None && r
                    == Err::<u64, InitError>(InitError::Failed),
            },
    {
        match self.state {
            InitState::Ready => match self.cached {
                Some(h) => Ok(h),
                None => Err(InitError::Failed),
            },
            InitState::Initializing => Err(InitError::Reentrant),
            InitState::Uninitialized => {
                self.state = InitState::Initializing;
                match ready_outcome {
                    Some(h) => {
                        self.cached = Some(h);
                        self.state = InitState::Ready;
                        Ok(h)
                    },
                    None => {
                        self.state = InitState::Uninitialized;
                        Err(InitError::Failed)
                    },
                }
            },
        }
    }

    /// The single entry point of the protocol: returns the cached
    /// descriptor immediately when `Ready` — idempotent and side-effect
    /// free — and otherwise runs [`Self::initialize`].
    pub fn type_of(&mut self, ready_outcome: Option<u64>) -> (r: Result<u64, InitError>)
        requires
            old(self).wf(),
        ensures
            final(self).wf(),
            old(self).state is Ready ==> *final(self) == *old(self) && (
            old(self).cached matches Some(h) && r == Ok::<u64, InitError>(h)),
            old(self).state is Initializing ==> *final(self) == *old(self) && r == Err::<
                u64,
                InitError,
            >(InitError::Reentrant),
            old(self).state is Uninitialized ==> match ready_outcome {
                Some(h) => final(self).state is Ready && final(self).cached == Some(h) && r == Ok::<
                    u64,
                    InitError,
                >(h),
                None => final(self).state is Uninitialized && final(self).cached is None && r
                    == Err::<u64, InitError>(InitError::Failed),
            },
    {
        match self.state {
            InitState::Ready => match self.cached {
                Some(h) => Ok(h),
                None => Err(InitError::Failed),
            },
            _ => self.initialize(ready_outcome),
        }
    }
}

/// The checked downcast of the emitted extraction and downcast fragments:
/// it succeeds exactly when the handle's runtime type equals the class's
/// registered descriptor, and fails with a type mismatch otherwise.
pub fn checked_downcast(object_type: u64, descriptor: u64) -> (r: Result<(), DowncastError>)
    ensures
        r is Ok <==> object_type == descriptor,
        r is Err ==> r == Err::<(), DowncastError>(DowncastError::TypeMismatch),
{
    if object_type == descriptor {
        Ok(())
    } else {
        Err(DowncastError::TypeMismatch)
    }
}

} // verus!
