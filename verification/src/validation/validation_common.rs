//! Validation of the information common to messages: its payload must not be
//! empty.

use vstd::prelude::*;
use crate::types::ovp_types::CommonMsgInfo;
use crate::validation::validation_error::ValidationError;

verus! {

impl CommonMsgInfo {
    /// `InvalidData` when the payload is empty.
    pub fn validate(&self) -> (r: Result<(), ValidationError>)
        ensures
            self.data.data@.len() == 0 ==> r == Err::<(), ValidationError>(ValidationError::InvalidData),
            self.data.data@.len() > 0 ==> r is Ok,
    {
        if self.data.data.len() == 0 {
            Err(ValidationError::InvalidData)
        } else {
            Ok(())
        }
    }
}

} // verus!
