pub mod validation_boc;
pub mod validation_cell;
pub mod validation_common;
pub mod validation_error;
pub mod validation_node;
