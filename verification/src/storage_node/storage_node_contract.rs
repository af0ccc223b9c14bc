//! A storage node: its stake, its battery, its peers, and the bags and
//! proofs it stores under the digest of the encoded bag.

use vstd::prelude::*;
use crate::bytes::{bytes32_eq, push_all};
use crate::crypto::{sha256, sha256_digest};
use crate::entries::{first_key, lemma_first_key_from, lemma_lookup_stored_after, lookup, stored_after};
use crate::error::{SystemError, SystemErrorType, system_error_type_string, system_error_type_text};
use crate::storage_node::battery::charging::{BatteryChargingSystem, discharged, reward_multiplier_for};

verus! {

/// The limits and rates of a node's battery. Times are in milliseconds.
#[derive(Clone, Copy, Debug)]
pub struct BatteryConfig {
    pub max_battery: u64,
    pub min_battery: u64,
    pub charge_rate: u64,
    pub discharge_rate: u64,
    pub charge_cooldown: u64,
    pub max_charge_attempts: u64,
    pub charge_wait_ms: u64,
}

/// Settings of state synchronisation.
#[derive(Clone, Copy, Debug)]
pub struct SyncConfig;

/// Settings of the node's network.
#[derive(Clone, Copy, Debug)]
pub struct NetworkConfig;

/// The least stake a node starts with.
pub const MIN_INITIAL_STAKE: u64 = 1000;

/// Entries of a store as mathematical values: key, then value.
pub open spec fn entry_views(s: Seq<([u8; 32], Vec<u8>)>) -> Seq<(Seq<u8>, Seq<u8>)> {
    s.map_values(|e: ([u8; 32], Vec<u8>)| (e.0@, e.1@))
}

/// The index of the entry with key `k`, if any.
fn find_entry(entries: &Vec<([u8; 32], Vec<u8>)>, k: &[u8; 32]) -> (r: Option<usize>)
    ensures
        match first_key(entry_views(entries@), k@, 0) {
            Some(i) => r == Some(i as usize) && 0 <= i < entries@.len(),
            None => r is None,
        },
        r matches Some(j) ==> first_key(entry_views(entries@), k@, 0) == Some(j as int),
{
    let ghost s = entry_views(entries@);
    let mut i: usize = 0;
    while i < entries.len()
        invariant
            i <= entries@.len(),
            s == entry_views(entries@),
            forall|m: int| 0 <= m < i ==> #[trigger] s[m].0 != k@,
        decreases entries@.len() - i,
    {
        assert(s[i as int].0 == entries@[i as int].0@);
        if bytes32_eq(&entries[i].0, k) {
            proof {
                lemma_first_key_from(s, k@, i as int);
            }
            return Some(i);
        }
        i = i + 1;
    }
    proof {
        lemma_first_key_from(s, k@, i as int);
    }
    None
}

/// Stores `value` under `key` (see `stored_after`).
fn store_entry(entries: &mut Vec<([u8; 32], Vec<u8>)>, key: [u8; 32], value: Vec<u8>)
    ensures
        entry_views(final(entries)@) == stored_after(entry_views(old(entries)@), key@, value@),
{
    match find_entry(entries, &key) {
        Some(i) => {
            entries.set(i, (key, value));
            assert(entry_views(entries@) =~= entry_views(old(entries)@).update(
                i as int,
                (key@, value@),
            ));
        },
        None => {
            entries.push((key, value));
            assert(entry_views(entries@) =~= entry_views(old(entries)@).push((key@, value@)));
        },
    }
}

/// A copy of a byte vector.
fn copy_bytes(v: &Vec<u8>) -> (r: Vec<u8>)
    ensures
        r@ == v@,
{
    let mut out: Vec<u8> = Vec::new();
    push_all(&mut out, v.as_slice());
    out
}

/// The peers as mathematical values.
pub open spec fn peer_views(p: Seq<[u8; 32]>) -> Seq<Seq<u8>> {
    p.map_values(|a: [u8; 32]| a@)
}

/// A storage node.
pub struct StorageNode {
    node_id: [u8; 32],
    stake: u64,
    battery_system: BatteryChargingSystem,
    stored_bocs: Vec<([u8; 32], Vec<u8>)>,
    stored_proofs: Vec<([u8; 32], Vec<u8>)>,
    peers: Vec<[u8; 32]>,
}

/// A storage node as a mathematical value. Bags are held in their encoded
/// form, each under the SHA-256 digest of its encoding, and so are the
/// proofs that came with them.
pub struct StorageNodeView {
    pub node_id: [u8; 32],
    pub stake: u64,
    pub battery: BatteryChargingSystem,
    pub bocs: Seq<(Seq<u8>, Seq<u8>)>,
    pub proofs: Seq<(Seq<u8>, Seq<u8>)>,
    pub peers: Seq<Seq<u8>>,
}

impl View for StorageNode {
    type V = StorageNodeView;

    closed spec fn view(&self) -> StorageNodeView {
        StorageNodeView {
            node_id: self.node_id,
            stake: self.stake,
            battery: self.battery_system,
            bocs: entry_views(self.stored_bocs@),
            proofs: entry_views(self.stored_proofs@),
            peers: peer_views(self.peers@),
        }
    }
}

/// Whether the battery lets a store at time `now` go ahead: it holds at
/// least its minimum, and the cooldown since its last charge has passed.
pub open spec fn battery_ready(n: StorageNodeView, now: u64) -> bool {
    &&& n.battery.battery_level >= n.battery.spec_config().min_battery
    &&& now - n.battery.spec_last_charge_time() >= n.battery.spec_config().charge_cooldown
}

/// Whether a store at time `now` succeeds: the battery is ready and the
/// proof is valid.
pub open spec fn store_accepted(n: StorageNodeView, proof_valid: bool, now: u64) -> bool {
    battery_ready(n, now) && proof_valid
}

/// The kind and message of the error of a refused store: a battery below its
/// minimum, then a cooldown not yet passed, then an invalid proof.
pub open spec fn store_refusal(n: StorageNodeView, now: u64) -> (SystemErrorType, Seq<char>) {
    if n.battery.battery_level < n.battery.spec_config().min_battery {
        (SystemErrorType::BatterySystemError, system_error_type_text(SystemErrorType::InsufficientBalance))
    } else if now - n.battery.spec_last_charge_time() < n.battery.spec_config().charge_cooldown {
        (SystemErrorType::BatterySystemError, system_error_type_text(SystemErrorType::SpendingLimitExceeded))
    } else {
        (SystemErrorType::InvalidProof, "Invalid proof"@)
    }
}

/// What a store at time `now` leaves of node `n` (as `m`): identity, stake
/// and peers kept; with the battery not ready, nothing changes; otherwise
/// the battery is discharged for the work, and with a valid proof the bag
/// and the proof are stored under the digest of the encoded bag, with an
/// invalid one the stores are kept.
pub open spec fn store_effect(
    n: StorageNodeView,
    m: StorageNodeView,
    boc_bytes: Seq<u8>,
    proof: Seq<u8>,
    proof_valid: bool,
    now: u64,
) -> bool {
    &&& m.node_id == n.node_id
    &&& m.stake == n.stake
    &&& m.peers == n.peers
    &&& !battery_ready(n, now) ==> m == n
    &&& battery_ready(n, now) ==> {
        &&& m.battery.battery_level == discharged(
            n.battery.battery_level,
            n.battery.spec_config().discharge_rate,
        )
        &&& m.battery.reward_multiplier == reward_multiplier_for(
            m.battery.battery_level,
            n.battery.spec_config().max_battery,
        )
        &&& m.battery.spec_config() == n.battery.spec_config()
        &&& m.battery.spec_last_charge_time() == n.battery.spec_last_charge_time()
        &&& m.battery.stake_amount == n.battery.stake_amount
        &&& !proof_valid ==> m.bocs == n.bocs && m.proofs == n.proofs
        &&& proof_valid ==> m.bocs == stored_after(n.bocs, sha256_digest(boc_bytes), boc_bytes)
            && m.proofs == stored_after(n.proofs, sha256_digest(boc_bytes), proof)
    }
}

/// A store that succeeds makes a later retrieval under the digest of the
/// encoded bag give back the bag and its proof, and leaves what is stored
/// under every other digest as it was; a refused store leaves the stored
/// bags and proofs as they were.
pub proof fn lemma_store_then_retrieve(
    n: StorageNodeView,
    m: StorageNodeView,
    boc_bytes: Seq<u8>,
    proof: Seq<u8>,
    proof_valid: bool,
    now: u64,
    other: Seq<u8>,
)
    requires
        store_effect(n, m, boc_bytes, proof, proof_valid, now),
    ensures
        store_accepted(n, proof_valid, now) ==> lookup(m.bocs, sha256_digest(boc_bytes)) == Some(
            boc_bytes,
        ) && lookup(m.proofs, sha256_digest(boc_bytes)) == Some(proof),
        store_accepted(n, proof_valid, now) && other != sha256_digest(boc_bytes) ==> lookup(
            m.bocs,
            other,
        ) == lookup(n.bocs, other) && lookup(m.proofs, other) == lookup(n.proofs, other),
        !store_accepted(n, proof_valid, now) ==> m.bocs == n.bocs && m.proofs == n.proofs,
{
    lemma_lookup_stored_after(n.bocs, sha256_digest(boc_bytes), boc_bytes, other);
    lemma_lookup_stored_after(n.proofs, sha256_digest(boc_bytes), proof, other);
}

impl StorageNode {
    /// A node with the given stake, a full battery made at time `now`, no
    /// stored bags and the given peers (each kept once);
    /// `InvalidStake` when the stake is below `MIN_INITIAL_STAKE`.
    pub fn new(
        node_id: [u8; 32],
        initial_stake: u64,
        battery_config: BatteryConfig,
        now: u64,
        peers: Vec<[u8; 32]>,
    ) -> (r: Result<StorageNode, SystemError>)
        ensures
            initial_stake < MIN_INITIAL_STAKE ==> (r matches Err(e) && e.error_type
                == SystemErrorType::InvalidStake && e.message@ == "Insufficient initial stake"@),
            initial_stake >= MIN_INITIAL_STAKE ==> (r matches Ok(n) && n@.node_id == node_id
                && n@.stake == initial_stake && n@.battery == BatteryChargingSystem::new_spec(
                battery_config,
                initial_stake,
                now,
            ) && n@.bocs.len() == 0 && n@.proofs.len() == 0 && n@.peers.to_set()
                == peer_views(peers@).to_set()),
    {
        if initial_stake < MIN_INITIAL_STAKE {
            return Err(
                SystemError::new(
                    SystemErrorType::InvalidStake,
                    String::from_str("Insufficient initial stake"),
                ),
            );
        }
        let battery_system = BatteryChargingSystem::new(battery_config, initial_stake, now);
        let mut node = StorageNode {
            node_id,
            stake: initial_stake,
            battery_system,
            stored_bocs: Vec::new(),
            stored_proofs: Vec::new(),
            peers: Vec::new(),
        };
        assert(peer_views(node.peers@) =~= Seq::<Seq<u8>>::empty());
        let mut i: usize = 0;
        while i < peers.len()
            invariant
                i <= peers@.len(),
                node@.node_id == node_id,
                node@.stake == initial_stake,
                node@.battery == BatteryChargingSystem::new_spec(battery_config, initial_stake, now),
                node@.bocs.len() == 0,
                node@.proofs.len() == 0,
                node@.peers.to_set() == peer_views(peers@).take(i as int).to_set(),
            decreases peers@.len() - i,
        {
            node.add_peer(peers[i]);
            proof {
                let t = peer_views(peers@).take(i + 1);
                assert(t =~= peer_views(peers@).take(i as int).push(peers@[i as int]@));
                assert(t.to_set() =~= peer_views(peers@).take(i as int).to_set().insert(
                    peers@[i as int]@,
                )) by {
                    peer_views(peers@).take(i as int).lemma_push_to_set_commute(peers@[i as int]@);
                }
            }
            i = i + 1;
        }
        assert(peer_views(peers@).take(peers@.len() as int) =~= peer_views(peers@));
        Ok(node)
    }

    /// The digest under which an encoded bag is stored.
    pub fn hash_boc_internal(&self, boc_bytes: &[u8]) -> (r: [u8; 32])
        ensures
            r@ == sha256_digest(boc_bytes@),
    {
        sha256(boc_bytes)
    }

    /// Stores an encoded bag and its proof at time `now`. First the battery
    /// is discharged for the work (`BatterySystemError`, with the battery's
    /// reason as the message, when it refuses); then an invalid proof is
    /// refused (`InvalidProof`); then both are stored under the digest of
    /// the encoded bag, replacing what was stored under it (see
    /// `store_effect`, `store_accepted` and `store_refusal`).
    pub fn store_update(&mut self, boc_bytes: Vec<u8>, proof: Vec<u8>, proof_valid: bool, now: u64) -> (r: Result<(), SystemError>)
        requires
            old(self)@.battery.spec_last_charge_time() <= now,
        ensures
            store_effect(old(self)@, final(self)@, boc_bytes@, proof@, proof_valid, now),
            r is Ok <==> store_accepted(old(self)@, proof_valid, now),
            r matches Err(e) ==> e.error_type == store_refusal(old(self)@, now).0 && e.message@
                == store_refusal(old(self)@, now).1,
    {
        match self.battery_system.charge_for_processing(now) {
            Ok(()) => {},
            Err(e) => {
                let message = system_error_type_string(e);
                return Err(SystemError::new(SystemErrorType::BatterySystemError, message));
            },
        }
        if !proof_valid {
            return Err(SystemError::new(SystemErrorType::InvalidProof, String::from_str("Invalid proof")));
        }
        let boc_id = self.hash_boc_internal(boc_bytes.as_slice());
        store_entry(&mut self.stored_bocs, boc_id, boc_bytes);
        store_entry(&mut self.stored_proofs, boc_id, proof);
        Ok(())
    }

    /// A copy of the encoded bag stored under `boc_id`; `DataNotFound` when
    /// there is none.
    pub fn retrieve_boc(&self, boc_id: &[u8; 32]) -> (r: Result<Vec<u8>, SystemError>)
        ensures
            match lookup(self@.bocs, boc_id@) {
                Some(v) => r matches Ok(b) && b@ == v,
                None => r matches Err(e) && e.error_type == SystemErrorType::DataNotFound
                    && e.message@ == "BOC not found"@,
            },
    {
        match find_entry(&self.stored_bocs, boc_id) {
            Some(i) => {
                assert(self@.bocs == entry_views(self.stored_bocs@));
                assert(self@.bocs[i as int].1 == self.stored_bocs@[i as int].1@);
                assert(lookup(self@.bocs, boc_id@) == Some(self@.bocs[i as int].1));
                Ok(copy_bytes(&self.stored_bocs[i].1))
            },
            None => Err(SystemError::new(SystemErrorType::DataNotFound, String::from_str("BOC not found"))),
        }
    }

    /// A copy of the proof stored under `proof_id`; `DataNotFound` when there
    /// is none.
    pub fn retrieve_proof(&self, proof_id: &[u8; 32]) -> (r: Result<Vec<u8>, SystemError>)
        ensures
            match lookup(self@.proofs, proof_id@) {
                Some(v) => r matches Ok(b) && b@ == v,
                None => r matches Err(e) && e.error_type == SystemErrorType::DataNotFound
                    && e.message@ == "Proof not found"@,
            },
    {
        match find_entry(&self.stored_proofs, proof_id) {
            Some(i) => {
                assert(self@.proofs == entry_views(self.stored_proofs@));
                assert(self@.proofs[i as int].1 == self.stored_proofs@[i as int].1@);
                assert(lookup(self@.proofs, proof_id@) == Some(self@.proofs[i as int].1));
                Ok(copy_bytes(&self.stored_proofs[i].1))
            },
            None => Err(SystemError::new(SystemErrorType::DataNotFound, String::from_str("Proof not found"))),
        }
    }

    /// A copy of the peers.
    pub fn get_peers(&self) -> (r: Vec<[u8; 32]>)
        ensures
            peer_views(r@) == self@.peers,
    {
        let mut out: Vec<[u8; 32]> = Vec::new();
        let mut i: usize = 0;
        while i < self.peers.len()
            invariant
                i <= self.peers@.len(),
                out@ == self.peers@.take(i as int),
            decreases self.peers@.len() - i,
        {
            out.push(self.peers[i]);
            i = i + 1;
            assert(out@ =~= self.peers@.take(i as int));
        }
        assert(self.peers@.take(self.peers@.len() as int) =~= self.peers@);
        out
    }

    /// Adds a peer; a peer already present is not added again.
    pub fn add_peer(&mut self, peer_id: [u8; 32]) -> (r: Result<(), SystemError>)
        ensures
            r is Ok,
            final(self)@.peers.to_set() == old(self)@.peers.to_set().insert(peer_id@),
            final(self)@.node_id == old(self)@.node_id,
            final(self)@.stake == old(self)@.stake,
            final(self)@.battery == old(self)@.battery,
            final(self)@.bocs == old(self)@.bocs,
            final(self)@.proofs == old(self)@.proofs,
    {
        let mut i: usize = 0;
        while i < self.peers.len()
            invariant
                i <= self.peers@.len(),
                forall|m: int| 0 <= m < i ==> #[trigger] peer_views(self.peers@)[m] != peer_id@,
            decreases self.peers@.len() - i,
        {
            if bytes32_eq(&self.peers[i], &peer_id) {
                assert(peer_views(self.peers@)[i as int] == peer_id@);
                assert(old(self)@.peers.to_set().insert(peer_id@) =~= old(self)@.peers.to_set());
                return Ok(());
            }
            i = i + 1;
        }
        let ghost before = peer_views(self.peers@);
        let mut peers = Vec::new();
        std::mem::swap(&mut peers, &mut self.peers);
        peers.push(peer_id);
        self.peers = peers;
        proof {
            assert(peer_views(self.peers@) =~= before.push(peer_id@));
            before.lemma_push_to_set_commute(peer_id@);
        }
        Ok(())
    }

    /// Removes a peer, if present.
    pub fn remove_peer(&mut self, peer_id: &[u8; 32]) -> (r: Result<(), SystemError>)
        ensures
            r is Ok,
            final(self)@.peers.to_set() == old(self)@.peers.to_set().remove(peer_id@),
            final(self)@.node_id == old(self)@.node_id,
            final(self)@.stake == old(self)@.stake,
            final(self)@.battery == old(self)@.battery,
            final(self)@.bocs == old(self)@.bocs,
            final(self)@.proofs == old(self)@.proofs,
    {
        let ghost old_peers = peer_views(self.peers@);
        let mut kept: Vec<[u8; 32]> = Vec::new();
        let mut i: usize = 0;
        while i < self.peers.len()
            invariant
                i <= self.peers@.len(),
                old_peers == peer_views(self.peers@),
                forall|x: Seq<u8>| #[trigger] peer_views(kept@).contains(x) <==> (x != peer_id@
                    && old_peers.take(i as int).contains(x)),
            decreases self.peers@.len() - i,
        {
            let ghost before = kept@;
            let p = self.peers[i];
            proof {
                assert(old_peers.take(i + 1) =~= old_peers.take(i as int).push(p@));
                assert(old_peers[i as int] == p@);
            }
            if !bytes32_eq(&p, peer_id) {
                kept.push(p);
                proof {
                    assert(peer_views(kept@) =~= peer_views(before).push(p@));
                }
            }
            proof {
                assert forall|x: Seq<u8>| #[trigger] peer_views(kept@).contains(x) <==> (x != peer_id@
                    && old_peers.take(i + 1).contains(x)) by {
                    vstd::seq_lib::lemma_seq_contains_after_push(old_peers.take(i as int), p@, x);
                    vstd::seq_lib::lemma_seq_contains_after_push(peer_views(before), p@, x);
                }
            }
            i = i + 1;
        }
        assert(old_peers.take(old_peers.len() as int) =~= old_peers);
        self.peers = kept;
        assert(self@.peers.to_set() =~= old(self)@.peers.to_set().remove(peer_id@));
        Ok(())
    }
}

} // verus!
