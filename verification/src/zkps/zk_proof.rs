//! Proofs of channel operations and the checks of their public inputs: a
//! state transition moves exactly the amount out of the old balance, a
//! transfer leaves room for amount and fee, a Merkle inclusion names a
//! 32-byte root.

use vstd::prelude::*;
use crate::error::{SystemError, SystemErrorType};
use crate::types::ovp_types::CircuitConfig;

verus! {

/// A proof: its bytes, its public inputs, the Merkle root it speaks of and
/// when it was made.
#[derive(Clone, Debug)]
pub struct ZkProof {
    pub proof_data: Vec<u8>,
    pub public_inputs: Vec<u64>,
    pub merkle_root: Vec<u8>,
    pub timestamp: u64,
}

/// The kinds of proofs.
#[derive(Clone, Copy, Debug, PartialEq, Eq, Structural)]
pub enum ProofType {
    StateTransition,
    BalanceTransfer,
    MerkleInclusion,
}

/// What a proof is about and when it was made and checked.
#[derive(Clone, Debug)]
pub struct ProofMetadata {
    pub proof_type: ProofType,
    pub channel_id: Option<[u8; 32]>,
    pub created_at: u64,
    pub verified_at: Option<u64>,
}

/// A proof with its metadata.
#[derive(Clone, Debug)]
pub struct ProofBundle {
    pub proof: ZkProof,
    pub metadata: ProofMetadata,
}

/// An error of the given kind with the given message.
pub open spec fn is_error(r: Result<bool, SystemError>, t: SystemErrorType, message: Seq<char>) -> bool {
    r matches Err(e) && e.error_type == t && e.message@ == message
}

/// Whether the proof has its bytes, some public input and a 32-byte root.
pub open spec fn well_formed_proof(p: ZkProof) -> bool {
    p.proof_data@.len() > 0 && p.public_inputs@.len() > 0 && p.merkle_root@.len() == 32
}

/// The outcome of the structural checks of a proof, as `verify_internally`
/// describes it.
pub open spec fn internal_outcome(p: ZkProof, r: Result<bool, SystemError>) -> bool {
    if p.proof_data@.len() == 0 {
        is_error(r, SystemErrorType::InvalidTransaction, "Empty proof data"@)
    } else if p.public_inputs@.len() == 0 {
        is_error(r, SystemErrorType::InvalidTransaction, "Missing public inputs"@)
    } else if p.merkle_root@.len() != 32 {
        is_error(r, SystemErrorType::InvalidTransaction, "Invalid merkle root length"@)
    } else {
        r == Ok::<bool, SystemError>(true)
    }
}

impl ZkProof {
    /// A proof with the given parts.
    pub fn new(proof_data: Vec<u8>, public_inputs: Vec<u64>, merkle_root: Vec<u8>, timestamp: u64) -> (r: ZkProof)
        ensures
            r.proof_data@ == proof_data@,
            r.public_inputs@ == public_inputs@,
            r.merkle_root@ == merkle_root@,
            r.timestamp == timestamp,
    {
        ZkProof { proof_data, public_inputs, merkle_root, timestamp }
    }

    /// Checks that the proof has bytes, public inputs and a 32-byte root, in
    /// that order.
    pub fn verify_internally(&self) -> (r: Result<bool, SystemError>)
        ensures
            internal_outcome(*self, r),
    {
        if self.proof_data.len() == 0 {
            return Err(SystemError::new(SystemErrorType::InvalidTransaction, String::from_str("Empty proof data")));
        }
        if self.public_inputs.len() == 0 {
            return Err(SystemError::new(SystemErrorType::InvalidTransaction, String::from_str("Missing public inputs")));
        }
        if self.merkle_root.len() != 32 {
            return Err(
                SystemError::new(SystemErrorType::InvalidTransaction, String::from_str("Invalid merkle root length")),
            );
        }
        Ok(true)
    }
}

/// Checks the public inputs of proofs.
pub struct ProofVerifier {
    config: CircuitConfig,
}

impl ProofVerifier {
    /// The circuit configuration the verifier was made for.
    pub closed spec fn spec_config(&self) -> CircuitConfig {
        self.config
    }

    /// A verifier for circuits of the given configuration.
    pub fn new(config: CircuitConfig) -> (r: ProofVerifier)
        ensures
            r.spec_config() == config,
    {
        ProofVerifier { config }
    }

    /// Checks a proof: first its structure (see `verify_internally`), then,
    /// as a state transition, its public inputs (see
    /// `verify_state_transition`).
    pub fn verify(&self, proof: &ZkProof) -> (r: Result<bool, SystemError>)
        ensures
            !well_formed_proof(*proof) ==> internal_outcome(*proof, r),
            well_formed_proof(*proof) ==> transition_outcome(proof.public_inputs@, r),
    {
        match proof.verify_internally() {
            Ok(_) => {},
            Err(e) => return Err(e),
        }
        self.verify_state_transition(proof)
    }

    /// Checks the inputs of a state transition: at least three (old balance,
    /// new balance, amount), a new balance not above the old one, and a
    /// difference equal to the amount.
    pub fn verify_state_transition(&self, proof: &ZkProof) -> (r: Result<bool, SystemError>)
        ensures
            transition_outcome(proof.public_inputs@, r),
    {
        if proof.public_inputs.len() < 3 {
            return Err(
                SystemError::new(
                    SystemErrorType::InvalidTransaction,
                    String::from_str("State transition proof requires at least 3 public inputs"),
                ),
            );
        }
        let old_balance = proof.public_inputs[0];
        let new_balance = proof.public_inputs[1];
        let amount = proof.public_inputs[2];
        if new_balance > old_balance {
            return Err(
                SystemError::new(
                    SystemErrorType::InvalidAmount,
                    String::from_str("New balance cannot exceed old balance"),
                ),
            );
        }
        if old_balance - new_balance != amount {
            return Err(
                SystemError::new(
                    SystemErrorType::InvalidAmount,
                    String::from_str("Balance difference must equal transfer amount"),
                ),
            );
        }
        Ok(true)
    }

    /// Checks the inputs of a transfer: at least four (sender balance, -,
    /// amount, fee), with amount and fee together within the balance.
    pub fn verify_balance_transfer(&self, proof: &ZkProof) -> (r: Result<bool, SystemError>)
        requires
            proof.public_inputs@.len() >= 4 ==> proof.public_inputs@[2] + proof.public_inputs@[3]
                <= u64::MAX,
        ensures
            proof.public_inputs@.len() < 4 ==> is_error(
                r,
                SystemErrorType::InvalidTransaction,
                "Balance transfer proof requires at least 4 public inputs"@,
            ),
            proof.public_inputs@.len() >= 4 && proof.public_inputs@[2] + proof.public_inputs@[3]
                > proof.public_inputs@[0] ==> is_error(
                r,
                SystemErrorType::InsufficientBalance,
                "Insufficient balance for transfer and fee"@,
            ),
            proof.public_inputs@.len() >= 4 && proof.public_inputs@[2] + proof.public_inputs@[3]
                <= proof.public_inputs@[0] ==> r == Ok::<bool, SystemError>(true),
    {
        if proof.public_inputs.len() < 4 {
            return Err(
                SystemError::new(
                    SystemErrorType::InvalidTransaction,
                    String::from_str("Balance transfer proof requires at least 4 public inputs"),
                ),
            );
        }
        let sender_balance = proof.public_inputs[0];
        let amount = proof.public_inputs[2];
        let fee = proof.public_inputs[3];
        if amount + fee > sender_balance {
            return Err(
                SystemError::new(
                    SystemErrorType::InsufficientBalance,
                    String::from_str("Insufficient balance for transfer and fee"),
                ),
            );
        }
        Ok(true)
    }

    /// Checks the inputs of a Merkle inclusion: some public input, and a
    /// 32-byte root.
    pub fn verify_merkle_inclusion(&self, proof: &ZkProof) -> (r: Result<bool, SystemError>)
        ensures
            (proof.public_inputs@.len() == 0 || proof.merkle_root@.len() != 32) ==> is_error(
                r,
                SystemErrorType::InvalidTransaction,
                "Invalid Merkle inclusion proof structure"@,
            ),
            (proof.public_inputs@.len() > 0 && proof.merkle_root@.len() == 32) ==> r == Ok::<
                bool,
                SystemError,
            >(true),
    {
        if proof.public_inputs.len() == 0 || proof.merkle_root.len() != 32 {
            return Err(
                SystemError::new(
                    SystemErrorType::InvalidTransaction,
                    String::from_str("Invalid Merkle inclusion proof structure"),
                ),
            );
        }
        Ok(true)
    }
}

/// The outcome of checking state-transition inputs, as
/// `verify_state_transition` describes it.
pub open spec fn transition_outcome(inputs: Seq<u64>, r: Result<bool, SystemError>) -> bool {
    if inputs.len() < 3 {
        is_error(r, SystemErrorType::InvalidTransaction, "State transition proof requires at least 3 public inputs"@)
    } else if inputs[1] > inputs[0] {
        is_error(r, SystemErrorType::InvalidAmount, "New balance cannot exceed old balance"@)
    } else if inputs[0] - inputs[1] != inputs[2] {
        is_error(r, SystemErrorType::InvalidAmount, "Balance difference must equal transfer amount"@)
    } else {
        r == Ok::<bool, SystemError>(true)
    }
}

/// A state transition is accepted exactly when there are at least three
/// inputs and the balance falls from the first to the second by exactly the
/// amount of the third; an accepted one gives `true`.
pub proof fn lemma_transition_accepts_exact_transfers(inputs: Seq<u64>, r: Result<bool, SystemError>)
    requires
        transition_outcome(inputs, r),
    ensures
        r is Ok <==> (inputs.len() >= 3 && inputs[1] <= inputs[0] && inputs[0] - inputs[1]
            == inputs[2]),
        r is Ok ==> r == Ok::<bool, SystemError>(true),
        inputs.len() >= 3 && inputs[1] <= inputs[0] && inputs[0] - inputs[1] != inputs[2] ==> (r matches Err(
            e,
        ) && e.error_type == SystemErrorType::InvalidAmount),
{
}

/// Checking a proof accepts it exactly when it is well formed and its
/// inputs move the balance by exactly the amount.
pub proof fn lemma_verify_accepts_exact_transfers(p: ZkProof, r: Result<bool, SystemError>)
    requires
        !well_formed_proof(p) ==> internal_outcome(p, r),
        well_formed_proof(p) ==> transition_outcome(p.public_inputs@, r),
    ensures
        r is Ok <==> (well_formed_proof(p) && p.public_inputs@.len() >= 3 && p.public_inputs@[1]
            <= p.public_inputs@[0] && p.public_inputs@[0] - p.public_inputs@[1]
            == p.public_inputs@[2]),
{
}

/// Whether a bundle is a state-transition proof whose public inputs are
/// exactly the claimed old balance, new balance and amount.
pub fn bundle_matches(bundle: &ProofBundle, old_balance: u64, new_balance: u64, amount: u64) -> (r: bool)
    ensures
        r == (bundle.metadata.proof_type == ProofType::StateTransition && bundle.proof.public_inputs@
            == seq![old_balance, new_balance, amount]),
{
    if bundle.metadata.proof_type != ProofType::StateTransition {
        return false;
    }
    let inputs = &bundle.proof.public_inputs;
    if inputs.len() != 3 {
        assert(inputs@ != seq![old_balance, new_balance, amount]);
        return false;
    }
    let r = inputs[0] == old_balance && inputs[1] == new_balance && inputs[2] == amount;
    if r {
        assert(inputs@ =~= seq![old_balance, new_balance, amount]);
    } else {
        assert(inputs@ != seq![old_balance, new_balance, amount]) by {
            if inputs@ == seq![old_balance, new_balance, amount] {
                assert(inputs@[0] == old_balance);
                assert(inputs@[1] == new_balance);
                assert(inputs@[2] == amount);
            }
        }
    }
    r
}

} // verus!
