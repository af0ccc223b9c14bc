//! The proving backend of channel state transitions.

use vstd::prelude::*;

verus! {

/// The backend that proves and checks state transitions.
#[derive(Clone, Copy, Debug, PartialEq, Eq, Structural)]
pub struct Plonky2Backend;

impl Plonky2Backend {
    /// The backend.
    pub fn new() -> (r: Plonky2Backend)
        ensures
            r == Plonky2Backend,
    {
        Plonky2Backend
    }
}

} // verus!
