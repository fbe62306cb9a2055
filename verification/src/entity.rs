//! What the server tracks of every entity besides its position.
use vstd::prelude::*;

verus! {

/// Whether an entity is still in the world.
#[derive(Debug, Clone, Copy, PartialEq, Eq, Structural)]
pub enum EntityLifecycle {
    Active,
    Gone,
}

} // verus!
