//! The server's lifecycle state, shared between threads.
use vstd::prelude::*;
use std::sync::atomic::{AtomicU8, Ordering};
use std::sync::Arc;

verus! {

/// Where the server is in its lifecycle.
#[derive(Debug, Clone, Copy, PartialEq, Eq, Structural)]
pub enum State {
    Created,
    Initializing,
    Running,
    Stopping,
    Stopped,
}

/// The byte a state is stored as.
pub open spec fn state_byte(state: State) -> u8 {
    match state {
        State::Created => 0,
        State::Initializing => 1,
        State::Running => 2,
        State::Stopping => 3,
        State::Stopped => 4,
    }
}

/// The state a stored byte stands for; anything past 3 reads as stopped.
pub open spec fn state_of_byte(b: u8) -> State {
    if b == 0 {
        State::Created
    } else if b == 1 {
        State::Initializing
    } else if b == 2 {
        State::Running
    } else if b == 3 {
        State::Stopping
    } else {
        State::Stopped
    }
}

impl State {
    /// The byte this state is stored as.
    #[must_use]
    pub fn to_byte(self) -> (r: u8)
        ensures
            r == state_byte(self),
    {
        match self {
            State::Created => 0,
            State::Initializing => 1,
            State::Running => 2,
            State::Stopping => 3,
            State::Stopped => 4,
        }
    }

    /// The state a stored byte stands for.
    #[must_use]
    pub fn from_byte(b: u8) -> (r: State)
        ensures
            r == state_of_byte(b),
    {
        match b {
            0 => State::Created,
            1 => State::Initializing,
            2 => State::Running,
            3 => State::Stopping,
            _ => State::Stopped,
        }
    }
}

/// Every state survives being stored as a byte and read back.
pub proof fn law_state_byte_roundtrip(state: State)
    ensures
        state_of_byte(state_byte(state)) == state,
{
}

/// A lifecycle state readable and writable from any thread; clones share
/// the same cell.
#[derive(Debug, Clone)]
pub struct SharedState {
    inner: Arc<AtomicU8>,
}

impl SharedState {
    /// A shared cell holding `state`.
    #[must_use]
    pub fn new(state: State) -> (r: Self) {
        SharedState { inner: Arc::new(AtomicU8::new(state.to_byte())) }
    }

    /// The state last stored by any thread. Which store that is depends on
    /// the other threads, so only the decoding of the loaded byte is stated.
    #[must_use]
    pub fn get(&self) -> (r: State)
        ensures
            exists|b: u8| r == state_of_byte(b),
    {
        let b = self.inner.load(Ordering::SeqCst);
        State::from_byte(b)
    }

    /// Stores `state` for every clone to see.
    pub fn set(&self, state: State) {
        self.inner.store(state.to_byte(), Ordering::SeqCst);
    }
}

} // verus!
