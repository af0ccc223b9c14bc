pub mod boc;
pub mod ovp_ops;
pub mod ovp_types;
