//! The reasons a validation fails.

use vstd::prelude::*;

verus! {

/// The reasons a validation fails.
#[derive(Debug, Clone, Copy, PartialEq, Eq, Structural)]
pub enum ValidationError {
    InvalidBoc,
    InvalidCellType,
    InvalidData,
    InvalidNodeData,
}

} // verus!
