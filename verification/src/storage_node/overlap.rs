//! Which storage nodes answer for which wallets: each wallet is assigned a
//! set of nodes, and each node keeps the wallets it answers for. The overlap
//! of two nodes is counted over the wallets they answer for.

use vstd::prelude::*;
use crate::bytes::bytes32_eq;
use crate::entries::{first_key, lemma_first_key_from, lookup, stored_after};
use crate::state::consistency_checker::{
    contains_state,
    count_in,
    count_membership,
    count_not_in,
    dedup_states,
    distinct_states,
    shared_states,
    state_views,
    total_states,
};

verus! {

/// Groups of identifiers under a key, as mathematical values.
pub open spec fn group_views(s: Seq<([u8; 32], Vec<[u8; 32]>)>) -> Seq<(Seq<u8>, Seq<Seq<u8>>)> {
    s.map_values(|e: ([u8; 32], Vec<[u8; 32]>)| (e.0@, state_views(e.1@)))
}

/// The responsibilities after making `node` answer for `wallet`: the wallet
/// joins the node's list unless it is there already.
pub open spec fn with_responsibility(
    r: Seq<(Seq<u8>, Seq<Seq<u8>>)>,
    node: Seq<u8>,
    wallet: Seq<u8>,
) -> Seq<(Seq<u8>, Seq<Seq<u8>>)> {
    match lookup(r, node) {
        Some(ws) => stored_after(r, node, if ws.contains(wallet) { ws } else { ws.push(wallet) }),
        None => stored_after(r, node, seq![wallet]),
    }
}

/// The responsibilities after making each node of the list, in order,
/// answer for `wallet`.
pub open spec fn with_responsibilities(
    r: Seq<(Seq<u8>, Seq<Seq<u8>>)>,
    nodes: Seq<Seq<u8>>,
    wallet: Seq<u8>,
) -> Seq<(Seq<u8>, Seq<Seq<u8>>)>
    decreases nodes.len(),
{
    if nodes.len() == 0 {
        r
    } else {
        with_responsibility(with_responsibilities(r, nodes.drop_last(), wallet), nodes.last(), wallet)
    }
}

/// The number of identifiers under `k`, or 0.
pub open spec fn group_len(s: Seq<(Seq<u8>, Seq<Seq<u8>>)>, k: Seq<u8>) -> nat {
    match lookup(s, k) {
        Some(v) => v.len(),
        None => 0,
    }
}

/// The identifiers under `k`, or none.
pub open spec fn group_of(s: Seq<(Seq<u8>, Seq<Seq<u8>>)>, k: Seq<u8>) -> Seq<Seq<u8>> {
    match lookup(s, k) {
        Some(v) => v,
        None => Seq::empty(),
    }
}

/// The assignments of wallets to nodes and of nodes to wallets.
pub struct WalletAssignments {
    node_responsibilities: Vec<([u8; 32], Vec<[u8; 32]>)>,
    wallet_assignments: Vec<([u8; 32], Vec<[u8; 32]>)>,
}

/// The assignments as mathematical values.
pub struct AssignmentsView {
    pub responsibilities: Seq<(Seq<u8>, Seq<Seq<u8>>)>,
    pub assignments: Seq<(Seq<u8>, Seq<Seq<u8>>)>,
}

impl View for WalletAssignments {
    type V = AssignmentsView;

    closed spec fn view(&self) -> AssignmentsView {
        AssignmentsView {
            responsibilities: group_views(self.node_responsibilities@),
            assignments: group_views(self.wallet_assignments@),
        }
    }
}

/// The index of the group with key `k`, if any.
fn find_group(groups: &Vec<([u8; 32], Vec<[u8; 32]>)>, k: &[u8; 32]) -> (r: Option<usize>)
    ensures
        match first_key(group_views(groups@), k@, 0) {
            Some(i) => r == Some(i as usize) && 0 <= i < groups@.len(),
            None => r is None,
        },
        r matches Some(j) ==> first_key(group_views(groups@), k@, 0) == Some(j as int),
{
    let ghost s = group_views(groups@);
    let mut i: usize = 0;
    while i < groups.len()
        invariant
            i <= groups@.len(),
            s == group_views(groups@),
            forall|m: int| 0 <= m < i ==> #[trigger] s[m].0 != k@,
        decreases groups@.len() - i,
    {
        assert(s[i as int].0 == groups@[i as int].0@);
        if bytes32_eq(&groups[i].0, k) {
            proof {
                lemma_first_key_from(s, k@, i as int);
            }
            return Some(i);
        }
        i = i + 1;
    }
    proof {
        lemma_first_key_from(s, k@, i as int);
    }
    None
}

/// A copy of a list of identifiers.
fn copy_ids(v: &Vec<[u8; 32]>) -> (r: Vec<[u8; 32]>)
    ensures
        r@ == v@,
{
    let mut out: Vec<[u8; 32]> = Vec::new();
    let mut i: usize = 0;
    while i < v.len()
        invariant
            i <= v@.len(),
            out@ == v@.take(i as int),
        decreases v@.len() - i,
    {
        out.push(v[i]);
        i = i + 1;
        assert(out@ =~= v@.take(i as int));
    }
    assert(v@.take(v@.len() as int) =~= v@);
    out
}

/// Stores `ids` under `key`.
fn store_group(groups: &mut Vec<([u8; 32], Vec<[u8; 32]>)>, key: [u8; 32], ids: Vec<[u8; 32]>)
    ensures
        group_views(final(groups)@) == stored_after(group_views(old(groups)@), key@, state_views(ids@)),
{
    match find_group(groups, &key) {
        Some(i) => {
            groups.set(i, (key, ids));
            assert(group_views(groups@) =~= group_views(old(groups)@).update(
                i as int,
                (key@, state_views(ids@)),
            ));
        },
        None => {
            groups.push((key, ids));
            assert(group_views(groups@) =~= group_views(old(groups)@).push((key@, state_views(ids@))));
        },
    }
}

/// A copy of the identifiers under `key`, or an empty list.
fn group_copy(groups: &Vec<([u8; 32], Vec<[u8; 32]>)>, key: &[u8; 32]) -> (r: Vec<[u8; 32]>)
    ensures
        state_views(r@) == group_of(group_views(groups@), key@),
{
    match find_group(groups, key) {
        Some(i) => {
            assert(group_views(groups@)[i as int].1 == state_views(groups@[i as int].1@));
            copy_ids(&groups[i].1)
        },
        None => {
            let r: Vec<[u8; 32]> = Vec::new();
            assert(state_views(r@) =~= Seq::<Seq<u8>>::empty());
            r
        },
    }
}

impl WalletAssignments {
    /// No assignment at all.
    pub fn new() -> (r: WalletAssignments)
        ensures
            r@.responsibilities.len() == 0,
            r@.assignments.len() == 0,
    {
        let r = WalletAssignments { node_responsibilities: Vec::new(), wallet_assignments: Vec::new() };
        assert(r@.responsibilities =~= Seq::<(Seq<u8>, Seq<Seq<u8>>)>::empty());
        assert(r@.assignments =~= Seq::<(Seq<u8>, Seq<Seq<u8>>)>::empty());
        r
    }

    /// Assigns the wallet to the given nodes, each once, replacing its former
    /// assignment, and makes each of them answer for the wallet. A node keeps
    /// the wallets it answered for before.
    pub fn assign_wallet(&mut self, wallet_id: [u8; 32], nodes: Vec<[u8; 32]>)
        ensures
            final(self)@.assignments == stored_after(
                old(self)@.assignments,
                wallet_id@,
                dedup_states(state_views(nodes@)),
            ),
            final(self)@.responsibilities == with_responsibilities(
                old(self)@.responsibilities,
                dedup_states(state_views(nodes@)),
                wallet_id@,
            ),
    {
        let node_set = distinct_states(&nodes);
        let mut i: usize = 0;
        let ghost start = self@.responsibilities;
        while i < node_set.len()
            invariant
                i <= node_set@.len(),
                self@.assignments == old(self)@.assignments,
                start == old(self)@.responsibilities,
                self@.responsibilities == with_responsibilities(
                    start,
                    state_views(node_set@).take(i as int),
                    wallet_id@,
                ),
            decreases node_set@.len() - i,
        {
            let node = node_set[i];
            let ghost before = self@.responsibilities;
            let mut wallets = group_copy(&self.node_responsibilities, &node);
            let ghost found = lookup(before, node@);
            if !contains_state(&wallets, &wallet_id) {
                let ghost w0 = wallets@;
                wallets.push(wallet_id);
                assert(state_views(wallets@) =~= state_views(w0).push(wallet_id@));
            }
            store_group(&mut self.node_responsibilities, node, wallets);
            proof {
                let t = state_views(node_set@).take(i + 1);
                assert(t.drop_last() =~= state_views(node_set@).take(i as int));
                assert(t.last() == node@);
                match found {
                    Some(ws) => {
                        assert(group_of(before, node@) == ws);
                    },
                    None => {
                        assert(group_of(before, node@) =~= Seq::<Seq<u8>>::empty());
                        assert(Seq::<Seq<u8>>::empty().push(wallet_id@) =~= seq![wallet_id@]);
                    },
                }
            }
            i = i + 1;
        }
        assert(state_views(node_set@).take(node_set@.len() as int) =~= state_views(node_set@));
        store_group(&mut self.wallet_assignments, wallet_id, node_set);
    }

    /// The number of nodes the wallet is assigned to, or 0.
    pub fn get_redundancy_factor(&self, wallet_id: &[u8; 32]) -> (r: usize)
        ensures
            r == group_len(self@.assignments, wallet_id@),
    {
        match find_group(&self.wallet_assignments, wallet_id) {
            Some(i) => {
                assert(self@.assignments[i as int].1 == state_views(self.wallet_assignments@[i as int].1@));
                self.wallet_assignments[i].1.len()
            },
            None => 0,
        }
    }

    /// The number of wallets the node answers for, or 0.
    pub fn responsibility_count(&self, node_id: &[u8; 32]) -> (r: usize)
        ensures
            r == group_len(self@.responsibilities, node_id@),
    {
        match find_group(&self.node_responsibilities, node_id) {
            Some(i) => {
                assert(self@.responsibilities[i as int].1 == state_views(
                    self.node_responsibilities@[i as int].1@,
                ));
                self.node_responsibilities[i].1.len()
            },
            None => 0,
        }
    }

    /// Whether some wallet is assigned to fewer than `target_redundancy`
    /// nodes.
    pub fn has_insufficient_redundancy(&self, target_redundancy: usize) -> (r: bool)
        ensures
            r == exists|i: int|
                0 <= i < self@.assignments.len() && #[trigger] self@.assignments[i].1.len()
                    < target_redundancy,
    {
        let mut i: usize = 0;
        while i < self.wallet_assignments.len()
            invariant
                i <= self.wallet_assignments@.len(),
                forall|j: int| 0 <= j < i ==> #[trigger] self@.assignments[j].1.len() >= target_redundancy,
            decreases self.wallet_assignments@.len() - i,
        {
            assert(self@.assignments[i as int].1.len() == self.wallet_assignments@[i as int].1@.len());
            if self.wallet_assignments[i].1.len() < target_redundancy {
                return true;
            }
            i = i + 1;
        }
        false
    }

    /// The nodes that answer for some wallet, in the order they were first
    /// given one.
    pub fn nodes(&self) -> (r: Vec<[u8; 32]>)
        ensures
            state_views(r@) == self@.responsibilities.map_values(|e: (Seq<u8>, Seq<Seq<u8>>)| e.0),
    {
        let mut out: Vec<[u8; 32]> = Vec::new();
        let mut i: usize = 0;
        while i < self.node_responsibilities.len()
            invariant
                i <= self.node_responsibilities@.len(),
                state_views(out@) == self@.responsibilities.map_values(
                    |e: (Seq<u8>, Seq<Seq<u8>>)| e.0,
                ).take(i as int),
            decreases self.node_responsibilities@.len() - i,
        {
            let ghost before = out@;
            assert(self@.responsibilities[i as int].0 == self.node_responsibilities@[i as int].0@);
            out.push(self.node_responsibilities[i].0);
            let ghost keys = self@.responsibilities.map_values(|e: (Seq<u8>, Seq<Seq<u8>>)| e.0);
            assert(state_views(out@) =~= state_views(before).push(self.node_responsibilities@[i as int].0@));
            assert(keys.take(i + 1) =~= keys.take(i as int).push(keys[i as int]));
            assert(keys[i as int] == self@.responsibilities[i as int].0);
            i = i + 1;
        }
        assert(self@.responsibilities.map_values(|e: (Seq<u8>, Seq<Seq<u8>>)| e.0).take(
            self@.responsibilities.len() as int,
        ) =~= self@.responsibilities.map_values(|e: (Seq<u8>, Seq<Seq<u8>>)| e.0));
        out
    }

    /// The wallets the two nodes both answer for, and the wallets either
    /// answers for, each counted once.
    pub fn overlap_counts(&self, node1: &[u8; 32], node2: &[u8; 32]) -> (r: (usize, usize))
        requires
            group_len(self@.responsibilities, node1@) + group_len(self@.responsibilities, node2@)
                <= usize::MAX,
        ensures
            r.0 == shared_states(
                group_of(self@.responsibilities, node1@),
                group_of(self@.responsibilities, node2@),
            ),
            r.1 == total_states(
                group_of(self@.responsibilities, node1@),
                group_of(self@.responsibilities, node2@),
            ),
    {
        let wallets1 = group_copy(&self.node_responsibilities, node1);
        let wallets2 = group_copy(&self.node_responsibilities, node2);
        assert(state_views(wallets1@).len() == wallets1@.len());
        assert(state_views(wallets2@).len() == wallets2@.len());
        assert(group_of(self@.responsibilities, node1@).len() == group_len(self@.responsibilities, node1@));
        assert(group_of(self@.responsibilities, node2@).len() == group_len(self@.responsibilities, node2@));
        let set1 = distinct_states(&wallets1);
        let set2 = distinct_states(&wallets2);
        let shared = count_membership(&set1, &wallets2, true);
        let only_second = count_membership(&set2, &wallets1, false);
        (shared, set1.len() + only_second)
    }
}

} // verus!
