pub mod zk_proof;
