pub mod battery;
pub mod challenge;
pub mod overlap;
pub mod storage_and_retreival;
pub mod storage_node_contract;
pub mod sync;
pub mod response;
