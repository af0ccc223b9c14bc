pub mod boc;
pub mod consistency_checker;
pub mod proving;
