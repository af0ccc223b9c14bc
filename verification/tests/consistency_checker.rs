use overpass::state::consistency_checker::{
    is_valid_transition, verify_merkle_path, ConsistencyChecker, ConsistencyError, MerklePath,
    MerkleTreeBehavior, NodeSnapshot,
};
use sha2::{Digest, Sha256};

fn create_test_storage_node(id: [u8; 32]) -> NodeSnapshot {
    NodeSnapshot {
        node_id: id,
        managed_states: Vec::new(),
        boc_states: Vec::new(),
        merkle_root: [0u8; 32],
        merkle_paths: Vec::new(),
    }
}

fn sha(data: &[u8]) -> Vec<u8> {
    let mut hasher = Sha256::new();
    hasher.update(data);
    hasher.finalize().to_vec()
}

#[test]
fn test_redundancy_verification() {
    let mut nodes = Vec::new();
    let state1 = [1u8; 32];
    let state2 = [2u8; 32];

    for i in 0..3 {
        let mut node = create_test_storage_node([i as u8; 32]);
        node.managed_states.push(state1);
        node.managed_states.push(state2);
        nodes.push(node);
    }

    let checker = ConsistencyChecker::new(nodes);
    assert!(checker.verify_redundancy_factor().is_ok());
}

#[test]
fn test_boc_transition_verification() {
    let mut node = create_test_storage_node([0u8; 32]);

    let mut prev_state = [0u8; 32];
    for _ in 0..5 {
        let mut hasher = Sha256::new();
        hasher.update(&prev_state);
        let next_state = hasher.finalize();

        node.boc_states.push(next_state.to_vec());

        prev_state.copy_from_slice(&next_state);
    }

    let checker = ConsistencyChecker::new(vec![node]);
    assert!(checker.verify_boc_transitions().is_ok());
}

#[test]
fn test_merkle_path_verification() {
    let leaf = vec![1u8; 32];
    let sibling = vec![2u8; 32];

    let mut hasher = Sha256::new();
    hasher.update(&leaf);
    hasher.update(&sibling);
    let root = hasher.finalize();

    let path = vec![(sibling, false)];

    let _checker = ConsistencyChecker::new(vec![]);
    assert!(verify_merkle_path(&leaf, &path, &root));
}

#[test]
fn test_node_overlap_verification() {
    let mut node1 = create_test_storage_node([1u8; 32]);
    let mut node2 = create_test_storage_node([2u8; 32]);

    let shared_states: Vec<[u8; 32]> = (0..5).map(|i| [i as u8; 32]).collect();

    for state in &shared_states {
        node1.managed_states.push(*state);
        node2.managed_states.push(*state);
    }

    for i in 5..8 {
        node1.managed_states.push([i as u8; 32]);
    }

    for i in 8..11 {
        node2.managed_states.push([i as u8; 32]);
    }

    let checker = ConsistencyChecker::new(vec![node1, node2]);
    assert!(checker.verify_node_overlap().is_ok());
}

#[test]
fn redundancy_reports_a_thin_state() {
    let mut nodes = Vec::new();
    for i in 0..3 {
        let mut node = create_test_storage_node([i as u8; 32]);
        node.managed_states.push([7u8; 32]);
        if i == 1 {
            node.managed_states.push([9u8; 32]);
            node.managed_states.push([9u8; 32]);
        }
        nodes.push(node);
    }
    let checker = ConsistencyChecker::new(nodes);
    assert_eq!(
        checker.verify_redundancy_factor(),
        Err(ConsistencyError::InsufficientRedundancy { state_id: [9u8; 32], copies: 1, required: 3 })
    );
}

#[test]
fn broken_chain_reports_first_bad_step() {
    let mut node = create_test_storage_node([4u8; 32]);
    let s0 = vec![0u8; 32];
    let s1 = sha(&s0);
    let bad = vec![5u8; 32];
    node.boc_states = vec![s0.clone(), s1.clone(), bad.clone(), sha(&bad)];
    let checker = ConsistencyChecker::new(vec![create_test_storage_node([1u8; 32]), node]);
    assert_eq!(
        checker.verify_boc_transitions(),
        Err(ConsistencyError::InvalidStateTransition { from: s1, to: bad, node_id: [4u8; 32] })
    );
    assert!(!is_valid_transition(&[1u8; 31], &sha(&[1u8; 31])));
    assert!(is_valid_transition(&[1u8; 32], &sha(&[1u8; 32])));
}

#[test]
fn merkle_paths_hash_in_the_given_order() {
    let leaf = vec![1u8; 32];
    let a = vec![2u8; 32];
    let b = vec![3u8; 32];
    let mut first = b.clone();
    first.extend(&sha(&[leaf.clone(), a.clone()].concat()));
    let root = sha(&first);
    let path = vec![(a.clone(), false), (b.clone(), true)];
    assert!(verify_merkle_path(&leaf, &path, &root));
    let swapped = vec![(a, true), (b, true)];
    assert!(!verify_merkle_path(&leaf, &swapped, &root));
    assert!(verify_merkle_path(&leaf, &[], &leaf));
    assert!(!verify_merkle_path(&leaf, &[], &root));

    let mut node = create_test_storage_node([8u8; 32]);
    node.merkle_root.copy_from_slice(&root);
    node.merkle_paths = vec![
        MerklePath { leaf: leaf.clone(), path: path.clone() },
        MerklePath { leaf: vec![6u8; 32], path: path.clone() },
    ];
    let root_array = node.root();
    let checker = ConsistencyChecker::new(vec![node]);
    assert_eq!(
        checker.verify_merkle_paths(),
        Err(ConsistencyError::InvalidMerklePath { leaf: vec![6u8; 32], root: root_array, node_id: [8u8; 32] })
    );
}

#[test]
fn overlap_counts_distinct_states() {
    let mut node1 = create_test_storage_node([1u8; 32]);
    let mut node2 = create_test_storage_node([2u8; 32]);
    node1.managed_states = vec![[1u8; 32], [1u8; 32], [2u8; 32], [3u8; 32]];
    node2.managed_states = vec![[3u8; 32], [4u8; 32], [5u8; 32], [6u8; 32], [7u8; 32], [8u8; 32], [9u8; 32], [10u8; 32]];
    assert_eq!(node1.get_managed_states().len(), 4);
    let checker = ConsistencyChecker::new(vec![]);
    // one shared state among ten distinct ones
    assert_eq!(checker.calculate_overlap(&node1, &node2), (1, 10));
    let checker = ConsistencyChecker::new(vec![node1, node2]);
    assert_eq!(
        checker.verify_node_overlap(),
        Err(ConsistencyError::InsufficientNodeOverlap {
            node1_id: [1u8; 32],
            node2_id: [2u8; 32],
            shared: 1,
            total: 10
        })
    );
    // three shared among ten is exactly the threshold and passes
    let mut a = create_test_storage_node([1u8; 32]);
    let mut b = create_test_storage_node([2u8; 32]);
    a.managed_states = (0..6).map(|i| [i as u8; 32]).collect();
    b.managed_states = (3..10).map(|i| [i as u8; 32]).collect();
    assert_eq!(ConsistencyChecker::new(vec![]).calculate_overlap(&a, &b), (3, 10));
    assert!(ConsistencyChecker::new(vec![a, b]).verify_node_overlap().is_ok());
    // two empty nodes share nothing
    let empty = ConsistencyChecker::new(vec![create_test_storage_node([1u8; 32]), create_test_storage_node([2u8; 32])]);
    assert!(empty.verify_node_overlap().is_err());
}

#[test]
fn global_check_runs_checks_in_order() {
    let mut nodes = Vec::new();
    for i in 0..3 {
        let mut node = create_test_storage_node([i as u8; 32]);
        node.managed_states.push([7u8; 32]);
        nodes.push(node);
    }
    nodes[2].boc_states = vec![vec![0u8; 32], vec![0u8; 32]];
    let checker = ConsistencyChecker::new(nodes);
    assert!(matches!(
        checker.verify_global_consistency(),
        Err(ConsistencyError::InvalidStateTransition { .. })
    ));

    let mut nodes = Vec::new();
    for i in 0..3 {
        let mut node = create_test_storage_node([i as u8; 32]);
        node.managed_states.push([7u8; 32]);
        nodes.push(node);
    }
    assert_eq!(ConsistencyChecker::new(nodes).verify_global_consistency(), Ok(()));
}
