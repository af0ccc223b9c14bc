//! The decisions of the challenge mechanism: once enough challenge records
//! have come in, each node they name is challenged, once, when it is a peer
//! that has not been challenged yet.

use vstd::prelude::*;
use crate::bytes::bytes32_eq;
use crate::types::ovp_types::ChallengeRecord;

verus! {

/// Whether `count` records reach the threshold of challenges.
pub open spec fn challenge_due(count: nat, threshold: u64) -> bool {
    count >= threshold
}

/// The nodes to challenge for the records, in order of the records: a node
/// is taken when it is a peer, was not challenged before, and was not taken
/// already.
pub open spec fn nodes_to_challenge(
    records: Seq<ChallengeRecord>,
    peers: Seq<Seq<u8>>,
    challenged: Seq<Seq<u8>>,
) -> Seq<Seq<u8>>
    decreases records.len(),
{
    if records.len() == 0 {
        Seq::empty()
    } else {
        let taken = nodes_to_challenge(records.drop_last(), peers, challenged);
        let id = records.last().node_id@;
        if peers.contains(id) && !challenged.contains(id) && !taken.contains(id) {
            taken.push(id)
        } else {
            taken
        }
    }
}

/// The views of a list of node identifiers.
pub open spec fn id_views(v: Seq<[u8; 32]>) -> Seq<Seq<u8>> {
    v.map_values(|a: [u8; 32]| a@)
}

/// Whether `id` is in the list.
fn contains_id(v: &Vec<[u8; 32]>, id: &[u8; 32]) -> (r: bool)
    ensures
        r == id_views(v@).contains(id@),
{
    let mut i: usize = 0;
    while i < v.len()
        invariant
            i <= v@.len(),
            forall|j: int| 0 <= j < i ==> #[trigger] id_views(v@)[j] != id@,
        decreases v@.len() - i,
    {
        if bytes32_eq(&v[i], id) {
            assert(id_views(v@)[i as int] == id@);
            return true;
        }
        i = i + 1;
    }
    false
}

/// Whether enough records came in to challenge (see `challenge_due`).
pub fn check_challenge(records: &Vec<ChallengeRecord>, challenge_threshold: u64) -> (r: bool)
    ensures
        r == challenge_due(records@.len(), challenge_threshold),
{
    records.len() as u64 >= challenge_threshold
}

/// The nodes to challenge (see `nodes_to_challenge`).
pub fn challenge_nodes(
    challenges: &Vec<ChallengeRecord>,
    peers: &Vec<[u8; 32]>,
    challenged: &Vec<[u8; 32]>,
) -> (r: Vec<[u8; 32]>)
    ensures
        id_views(r@) == nodes_to_challenge(challenges@, id_views(peers@), id_views(challenged@)),
{
    let mut taken: Vec<[u8; 32]> = Vec::new();
    let mut i: usize = 0;
    while i < challenges.len()
        invariant
            i <= challenges@.len(),
            id_views(taken@) == nodes_to_challenge(
                challenges@.take(i as int),
                id_views(peers@),
                id_views(challenged@),
            ),
        decreases challenges@.len() - i,
    {
        let node_id = challenges[i].node_id;
        proof {
            let t = challenges@.take(i + 1);
            assert(t.drop_last() =~= challenges@.take(i as int));
            assert(t.last() == challenges@[i as int]);
        }
        let ghost before = taken@;
        if contains_id(peers, &node_id) && !contains_id(challenged, &node_id) && !contains_id(
            &taken,
            &node_id,
        ) {
            taken.push(node_id);
            assert(id_views(taken@) =~= id_views(before).push(node_id@));
        }
        i = i + 1;
    }
    assert(challenges@.take(challenges@.len() as int) =~= challenges@);
    taken
}

} // verus!
