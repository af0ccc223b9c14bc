//! Verified core of the Overpass off-chain channel library: operation codes,
//! bags of cells (BOCs) with their binary encoding and structural checks,
//! token bookkeeping and message validation.

pub mod bytes;
pub mod crypto;
pub mod entries;
pub mod error;
pub mod sparse_merkle_tree;
pub mod state;
pub mod storage_node;
pub mod tokens;
pub mod types;
pub mod validation;
pub mod zkps;
