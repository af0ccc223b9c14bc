//! Storage and retrieval through a storage node, with counters of the
//! operations done.

use vstd::prelude::*;
use crate::entries::{lookup, stored_after};
use crate::error::{SystemError, SystemErrorType, system_error_type_text};
use crate::storage_node::storage_node_contract::{
    StorageNode,
    StorageNodeView,
    store_accepted,
    store_effect,
    store_refusal,
};

verus! {

/// How many bags and proofs were stored and retrieved.
#[derive(Clone, Copy, Debug, PartialEq, Eq, Structural)]
pub struct StorageAndRetrievalMetrics {
    pub store_boc: u64,
    pub store_proof: u64,
    pub retrieve_boc: u64,
    pub retrieve_proof: u64,
}

impl StorageAndRetrievalMetrics {
    /// All counters at zero.
    pub open spec fn new_spec() -> StorageAndRetrievalMetrics {
        StorageAndRetrievalMetrics { store_boc: 0, store_proof: 0, retrieve_boc: 0, retrieve_proof: 0 }
    }

    /// All counters at zero.
    pub fn new() -> (r: StorageAndRetrievalMetrics)
        ensures
            r == (StorageAndRetrievalMetrics {
                store_boc: 0,
                store_proof: 0,
                retrieve_boc: 0,
                retrieve_proof: 0,
            }),
    {
        StorageAndRetrievalMetrics { store_boc: 0, store_proof: 0, retrieve_boc: 0, retrieve_proof: 0 }
    }
}

impl Default for StorageAndRetrievalMetrics {
    fn default() -> (r: StorageAndRetrievalMetrics)
        ensures
            r == (StorageAndRetrievalMetrics {
                store_boc: 0,
                store_proof: 0,
                retrieve_boc: 0,
                retrieve_proof: 0,
            }),
    {
        Self::new()
    }
}

/// Stores and retrieves through a storage node, counting what it does.
pub struct StorageAndRetrievalManager {
    storage_node: StorageNode,
    metrics: StorageAndRetrievalMetrics,
}

/// The text of an error: its kind's text, a colon and a space, then its
/// message.
pub open spec fn error_text(e: SystemError) -> Seq<char> {
    system_error_type_text(e.error_type) + ": "@ + e.message@
}

impl StorageAndRetrievalManager {
    /// The node stored to.
    pub closed spec fn node(&self) -> StorageNodeView {
        self.storage_node@
    }

    /// The counters.
    pub closed spec fn spec_metrics(&self) -> StorageAndRetrievalMetrics {
        self.metrics
    }

    /// A manager of the node with every operation enabled and the counters at
    /// zero.
    pub fn new(storage_node: StorageNode) -> (r: StorageAndRetrievalManager)
        ensures
            r.node() == storage_node@,
            r.spec_metrics() == StorageAndRetrievalMetrics::new_spec(),
    {
        StorageAndRetrievalManager { storage_node, metrics: StorageAndRetrievalMetrics::new() }
    }

    /// The counters.
    pub fn metrics(&self) -> (r: StorageAndRetrievalMetrics)
        ensures
            r == self.spec_metrics(),
    {
        self.metrics
    }

    /// Stores an encoded bag and its proof at time `now` (see
    /// `StorageNode::store_update`); it succeeds exactly when the node
    /// accepts the store, and then both store counters rise by one. A
    /// refusal of the node is given as `InvalidAmount`, with the node's error
    /// text as its message, and leaves the counters as they were.
    pub fn store_data(&mut self, boc_bytes: Vec<u8>, proof: Vec<u8>, proof_valid: bool, now: u64) -> (r: Result<(), SystemError>)
        requires
            old(self).node().battery.spec_last_charge_time() <= now,
            old(self).spec_metrics().store_boc < u64::MAX,
            old(self).spec_metrics().store_proof < u64::MAX,
        ensures
            store_effect(old(self).node(), final(self).node(), boc_bytes@, proof@, proof_valid, now),
            r is Ok <==> store_accepted(old(self).node(), proof_valid, now),
            r is Ok ==> final(self).spec_metrics() == (StorageAndRetrievalMetrics {
                store_boc: (old(self).spec_metrics().store_boc + 1) as u64,
                store_proof: (old(self).spec_metrics().store_proof + 1) as u64,
                ..old(self).spec_metrics()
            }),
            r is Ok ==> final(self).node().bocs == stored_after(
                old(self).node().bocs,
                crate::crypto::sha256_digest(boc_bytes@),
                boc_bytes@,
            ),
            r matches Err(e) ==> final(self).spec_metrics() == old(self).spec_metrics()
                && e.error_type == SystemErrorType::InvalidAmount && e.message@
                == system_error_type_text(store_refusal(old(self).node(), now).0) + ": "@
                + store_refusal(old(self).node(), now).1,
    {
        match self.storage_node.store_update(boc_bytes, proof, proof_valid, now) {
            Ok(()) => {},
            Err(e) => {
                return Err(SystemError::new(SystemErrorType::InvalidAmount, e.to_string()));
            },
        }
        self.metrics.store_boc = self.metrics.store_boc + 1;
        self.metrics.store_proof = self.metrics.store_proof + 1;
        Ok(())
    }

    /// The encoded bag stored under `boc_id` (see
    /// `StorageNode::retrieve_boc`); a refusal of the node is given as
    /// `InvalidAmount`, with the node's error as its text.
    pub fn retrieve_data(&self, boc_id: &[u8; 32]) -> (r: Result<Vec<u8>, SystemError>)
        ensures
            match lookup(self.node().bocs, boc_id@) {
                Some(v) => r matches Ok(b) && b@ == v,
                None => r matches Err(e) && e.error_type == SystemErrorType::InvalidAmount
                    && e.message@ == system_error_type_text(SystemErrorType::DataNotFound) + ": "@
                    + "BOC not found"@,
            },
    {
        match self.storage_node.retrieve_boc(boc_id) {
            Ok(b) => Ok(b),
            Err(e) => Err(SystemError::new(SystemErrorType::InvalidAmount, e.to_string())),
        }
    }

    /// The proof stored under `proof_id` (see `StorageNode::retrieve_proof`);
    /// a refusal of the node is given as `InvalidAmount`, with the node's
    /// error as its text.
    pub fn retrieve_proof(&self, proof_id: &[u8; 32]) -> (r: Result<Vec<u8>, SystemError>)
        ensures
            match lookup(self.node().proofs, proof_id@) {
                Some(v) => r matches Ok(b) && b@ == v,
                None => r matches Err(e) && e.error_type == SystemErrorType::InvalidAmount
                    && e.message@ == system_error_type_text(SystemErrorType::DataNotFound) + ": "@
                    + "Proof not found"@,
            },
    {
        match self.storage_node.retrieve_proof(proof_id) {
            Ok(b) => Ok(b),
            Err(e) => Err(SystemError::new(SystemErrorType::InvalidAmount, e.to_string())),
        }
    }
}

} // verus!
