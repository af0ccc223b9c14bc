use overpass::error::SystemErrorType;
use overpass::storage_node::storage_node_contract::{BatteryConfig, StorageNode};
use sha2::{Digest, Sha256};

fn config() -> BatteryConfig {
    BatteryConfig {
        max_battery: 100,
        min_battery: 20,
        charge_rate: 5,
        discharge_rate: 10,
        charge_cooldown: 0,
        max_charge_attempts: 3,
        charge_wait_ms: 250,
    }
}

#[test]
fn stake_below_minimum_is_refused() {
    let err = StorageNode::new([1u8; 32], 999, config(), 0, vec![]).err().unwrap();
    assert_eq!(err.error_type, SystemErrorType::InvalidStake);
    assert_eq!(err.message, "Insufficient initial stake");
    assert!(StorageNode::new([1u8; 32], 1000, config(), 0, vec![]).is_ok());
}

#[test]
fn store_then_retrieve_gives_back_the_bag() {
    let mut node = StorageNode::new([1u8; 32], 5000, config(), 0, vec![[2u8; 32], [2u8; 32]]).unwrap();
    let bag = vec![1u8, 2, 3];
    let id = node.hash_boc_internal(&bag);
    let expected: [u8; 32] = Sha256::digest(&bag).into();
    assert_eq!(id, expected);
    assert_eq!(node.store_update(bag.clone(), vec![9], true, 1).map_err(|e| e.error_type), Ok(()));
    assert_eq!(node.retrieve_boc(&id).unwrap(), bag);
    assert_eq!(node.retrieve_proof(&id).unwrap(), vec![9]);
    // storing the same bag again replaces its proof
    assert!(node.store_update(bag.clone(), vec![7], true, 2).is_ok());
    assert_eq!(node.retrieve_proof(&id).unwrap(), vec![7]);
    let missing = node.retrieve_boc(&[0u8; 32]).err().unwrap();
    assert_eq!(missing.error_type, SystemErrorType::DataNotFound);
    assert_eq!(missing.message, "BOC not found");
    assert_eq!(node.retrieve_proof(&[0u8; 32]).err().unwrap().message, "Proof not found");
}

#[test]
fn store_checks_battery_then_proof() {
    let mut node = StorageNode::new([1u8; 32], 5000, config(), 0, vec![]).unwrap();
    let err = node.store_update(vec![1], vec![], false, 1).err().unwrap();
    assert_eq!(err.error_type, SystemErrorType::InvalidProof);
    assert_eq!(err.message, "Invalid proof");
    assert!(node.retrieve_boc(&node.hash_boc_internal(&[1])).is_err());
    // nine successful or refused discharges later the battery is below its minimum
    for t in 2..10 {
        let _ = node.store_update(vec![t as u8], vec![], true, t);
    }
    let err = node.store_update(vec![50], vec![], true, 20).err().unwrap();
    assert_eq!(err.error_type, SystemErrorType::BatterySystemError);
    assert_eq!(err.message, "Insufficient balance");
}

#[test]
fn peers_behave_as_a_set() {
    let mut node = StorageNode::new([1u8; 32], 5000, config(), 0, vec![[2u8; 32], [2u8; 32]]).unwrap();
    assert_eq!(node.get_peers(), vec![[2u8; 32]]);
    assert!(node.add_peer([3u8; 32]).is_ok());
    assert!(node.add_peer([3u8; 32]).is_ok());
    assert_eq!(node.get_peers(), vec![[2u8; 32], [3u8; 32]]);
    assert!(node.remove_peer(&[2u8; 32]).is_ok());
    assert!(node.remove_peer(&[9u8; 32]).is_ok());
    assert_eq!(node.get_peers(), vec![[3u8; 32]]);
}

use overpass::storage_node::storage_and_retreival::StorageAndRetrievalManager;

#[test]
fn manager_counts_stores_and_relabels_errors() {
    let node = StorageNode::new([1u8; 32], 5000, config(), 0, vec![]).unwrap();
    let mut m = StorageAndRetrievalManager::new(node);
    assert_eq!(m.metrics().store_boc, 0);
    assert!(m.store_data(vec![4, 5], vec![6], true, 1).is_ok());
    assert_eq!((m.metrics().store_boc, m.metrics().store_proof), (1, 1));
    let id: [u8; 32] = Sha256::digest(&[4u8, 5]).into();
    assert_eq!(m.retrieve_data(&id).unwrap(), vec![4, 5]);
    assert_eq!(m.retrieve_proof(&id).unwrap(), vec![6]);
    let e = m.retrieve_data(&[0u8; 32]).err().unwrap();
    assert_eq!(e.error_type, SystemErrorType::InvalidAmount);
    assert_eq!(e.message, "Data not found: BOC not found");
    let e = m.store_data(vec![7], vec![], false, 2).err().unwrap();
    assert_eq!(e.error_type, SystemErrorType::InvalidAmount);
    assert_eq!(e.message, "Invalid proof: Invalid proof");
    assert_eq!((m.metrics().store_boc, m.metrics().store_proof), (1, 1));
}
