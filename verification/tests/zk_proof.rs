use overpass::error::SystemErrorType;
use overpass::types::ovp_types::CircuitConfig;
use overpass::zkps::zk_proof::{bundle_matches, ProofBundle, ProofMetadata, ProofType, ProofVerifier, ZkProof};

fn sample_proof(inputs: Vec<u64>) -> ZkProof {
    ZkProof::new(vec![1], inputs, vec![0u8; 32], 5)
}

#[test]
fn structural_checks_in_order() {
    let e = ZkProof::new(vec![], vec![], vec![], 0).verify_internally().err().unwrap();
    assert_eq!((e.error_type, e.message.as_str()), (SystemErrorType::InvalidTransaction, "Empty proof data"));
    let e = ZkProof::new(vec![1], vec![], vec![], 0).verify_internally().err().unwrap();
    assert_eq!(e.message, "Missing public inputs");
    let e = ZkProof::new(vec![1], vec![1], vec![0u8; 31], 0).verify_internally().err().unwrap();
    assert_eq!(e.message, "Invalid merkle root length");
    assert_eq!(sample_proof(vec![1]).verify_internally().ok(), Some(true));
}

#[test]
fn state_transition_inputs() {
    let v = ProofVerifier::new(CircuitConfig);
    assert_eq!(v.verify(&sample_proof(vec![1000, 900, 100])).ok(), Some(true));
    let e = v.verify(&sample_proof(vec![1000, 950, 100])).err().unwrap();
    assert_eq!((e.error_type, e.message.as_str()), (SystemErrorType::InvalidAmount, "Balance difference must equal transfer amount"));
    let e = v.verify(&sample_proof(vec![900, 1000, 100])).err().unwrap();
    assert_eq!(e.message, "New balance cannot exceed old balance");
    let e = v.verify_state_transition(&sample_proof(vec![1, 2])).err().unwrap();
    assert_eq!(e.message, "State transition proof requires at least 3 public inputs");
    let e = v.verify(&ZkProof::new(vec![], vec![1, 1, 0], vec![0u8; 32], 0)).err().unwrap();
    assert_eq!(e.message, "Empty proof data");
}

#[test]
fn transfer_and_inclusion_inputs() {
    let v = ProofVerifier::new(CircuitConfig);
    assert_eq!(v.verify_balance_transfer(&sample_proof(vec![100, 0, 90, 10])).ok(), Some(true));
    let e = v.verify_balance_transfer(&sample_proof(vec![100, 0, 90, 11])).err().unwrap();
    assert_eq!((e.error_type, e.message.as_str()), (SystemErrorType::InsufficientBalance, "Insufficient balance for transfer and fee"));
    let e = v.verify_balance_transfer(&sample_proof(vec![100, 0, 90])).err().unwrap();
    assert_eq!(e.message, "Balance transfer proof requires at least 4 public inputs");
    assert_eq!(v.verify_merkle_inclusion(&sample_proof(vec![1])).ok(), Some(true));
    let e = v.verify_merkle_inclusion(&ZkProof::new(vec![1], vec![1], vec![0u8; 3], 0)).err().unwrap();
    assert_eq!(e.message, "Invalid Merkle inclusion proof structure");
}

#[test]
fn bundles_match_their_claims() {
    let bundle = ProofBundle {
        proof: sample_proof(vec![1000, 900, 100]),
        metadata: ProofMetadata { proof_type: ProofType::StateTransition, channel_id: None, created_at: 0, verified_at: None },
    };
    assert!(bundle_matches(&bundle, 1000, 900, 100));
    assert!(!bundle_matches(&bundle, 1000, 950, 100));
    let mut other = bundle.clone();
    other.metadata.proof_type = ProofType::BalanceTransfer;
    assert!(!bundle_matches(&other, 1000, 900, 100));
}
