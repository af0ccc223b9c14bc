//! Validation of key-value nodes: neither the key nor the value may be empty.

use vstd::prelude::*;
use crate::validation::validation_error::ValidationError;

verus! {

/// Nodes that can check their own contents.
pub trait NodeValidation {
    fn validate(&self) -> Result<(), ValidationError>;
}

/// The check of a key-value node: `InvalidNodeData` when the key or the value
/// is empty.
pub fn validate_key_value(key: &[u8], value: &[u8]) -> (r: Result<(), ValidationError>)
    ensures
        (key@.len() == 0 || value@.len() == 0) ==> r == Err::<(), ValidationError>(
            ValidationError::InvalidNodeData,
        ),
        (key@.len() > 0 && value@.len() > 0) ==> r is Ok,
{
    if key.len() == 0 {
        Err(ValidationError::InvalidNodeData)
    } else if value.len() == 0 {
        Err(ValidationError::InvalidNodeData)
    } else {
        Ok(())
    }
}

} // verus!
