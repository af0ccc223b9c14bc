//! Validation of a cell: its data must not be empty.

use vstd::prelude::*;
use crate::state::boc::cell::Cell;
use crate::validation::validation_error::ValidationError;

verus! {

impl Cell {
    /// `InvalidData` when the cell holds no data.
    pub fn validate(&self) -> (r: Result<(), ValidationError>)
        ensures
            self@.data.len() == 0 ==> r == Err::<(), ValidationError>(ValidationError::InvalidData),
            self@.data.len() > 0 ==> r is Ok,
    {
        if self.data().len() == 0 {
            Err(ValidationError::InvalidData)
        } else {
            Ok(())
        }
    }
}

} // verus!
