use overpass::storage_node::challenge::{challenge_nodes, check_challenge};
use overpass::storage_node::response::{collect_responses, response_check_due};
use overpass::types::boc::{Cell, CellType};
use overpass::types::ovp_types::ChallengeRecord;

fn record(node: u8) -> ChallengeRecord {
    ChallengeRecord {
        node_id: [node; 32],
        client_id: [0u8; 32],
        challenge: [0u8; 32],
        response: [0u8; 32],
        timestamp: 0,
    }
}

#[test]
fn challenges_start_at_the_threshold() {
    let records = vec![record(1), record(2)];
    assert!(check_challenge(&records, 2));
    assert!(!check_challenge(&records, 3));
    assert!(check_challenge(&vec![], 0));
}

#[test]
fn each_peer_is_challenged_once() {
    let records = vec![record(1), record(2), record(3), record(1), record(4)];
    let peers = vec![[1u8; 32], [3u8; 32], [4u8; 32]];
    let challenged = vec![[4u8; 32]];
    assert_eq!(challenge_nodes(&records, &peers, &challenged), vec![[1u8; 32], [3u8; 32]]);
    assert_eq!(challenge_nodes(&vec![], &peers, &challenged), Vec::<[u8; 32]>::new());
}

#[test]
fn responses_are_the_32_byte_cells() {
    let cells = vec![
        Cell::new(vec![7u8; 32], vec![], CellType::Ordinary, [0u8; 32], None),
        Cell::new(vec![1, 2, 3], vec![], CellType::Ordinary, [0u8; 32], None),
        Cell::new(vec![9u8; 32], vec![], CellType::Ordinary, [0u8; 32], None),
        Cell::new(vec![9u8; 33], vec![], CellType::Ordinary, [0u8; 32], None),
    ];
    assert_eq!(collect_responses(&cells), vec![[7u8; 32], [9u8; 32]]);
    assert!(response_check_due(cells.len(), 4));
    assert!(!response_check_due(cells.len(), 5));
}

use overpass::storage_node::overlap::WalletAssignments;

#[test]
fn wallet_assignments_track_both_directions() {
    let mut a = WalletAssignments::new();
    a.assign_wallet([1u8; 32], vec![[10u8; 32], [11u8; 32], [10u8; 32]]);
    a.assign_wallet([2u8; 32], vec![[11u8; 32], [12u8; 32]]);
    assert_eq!(a.get_redundancy_factor(&[1u8; 32]), 2);
    assert_eq!(a.get_redundancy_factor(&[9u8; 32]), 0);
    assert_eq!(a.nodes(), vec![[10u8; 32], [11u8; 32], [12u8; 32]]);
    assert_eq!(a.responsibility_count(&[11u8; 32]), 2);
    assert_eq!(a.responsibility_count(&[10u8; 32]), 1);
    assert_eq!(a.overlap_counts(&[10u8; 32], &[11u8; 32]), (1, 2));
    assert_eq!(a.overlap_counts(&[10u8; 32], &[12u8; 32]), (0, 2));
    assert!(a.has_insufficient_redundancy(3));
    assert!(!a.has_insufficient_redundancy(2));
    // reassigning replaces the wallet's nodes; nodes keep what they answered for
    a.assign_wallet([1u8; 32], vec![[12u8; 32]]);
    assert_eq!(a.get_redundancy_factor(&[1u8; 32]), 1);
    assert_eq!(a.responsibility_count(&[10u8; 32]), 1);
    assert_eq!(a.responsibility_count(&[12u8; 32]), 2);
}
