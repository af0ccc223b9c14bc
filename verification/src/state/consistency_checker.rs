//! Global consistency checks over the storage nodes: every managed state is
//! held by enough nodes, each node's history of states is a hash chain, each
//! node's Merkle paths lead to its root, and every two nodes share enough of
//! their states.

use vstd::prelude::*;
use crate::bytes::{bytes32_eq, bytes_eq, push_all};
use crate::crypto::{sha256, sha256_digest};

verus! {

/// The fewest nodes that must hold each managed state.
pub const MIN_REDUNDANCY: usize = 3;

/// A leaf and the path of siblings from it to a root; each step says whether
/// the sibling stands on the right of the running hash.
pub struct MerklePath {
    pub leaf: Vec<u8>,
    pub path: Vec<(Vec<u8>, bool)>,
}

/// What the checks read of a storage node: its identifier, the states it
/// manages, the state of each bag in its history (oldest first), the root of
/// its Merkle tree and the paths of that tree.
pub struct NodeSnapshot {
    pub node_id: [u8; 32],
    pub managed_states: Vec<[u8; 32]>,
    pub boc_states: Vec<Vec<u8>>,
    pub merkle_root: [u8; 32],
    pub merkle_paths: Vec<MerklePath>,
}

/// The reasons the nodes are found inconsistent. An overlap is reported as
/// the number of states the two nodes share and the number they hold
/// together.
#[derive(Debug, Clone, PartialEq)]
pub enum ConsistencyError {
    InsufficientRedundancy { state_id: [u8; 32], copies: usize, required: usize },
    InvalidStateTransition { from: Vec<u8>, to: Vec<u8>, node_id: [u8; 32] },
    InvalidMerklePath { leaf: Vec<u8>, root: [u8; 32], node_id: [u8; 32] },
    InsufficientNodeOverlap { node1_id: [u8; 32], node2_id: [u8; 32], shared: usize, total: usize },
}

/// The hash reached from `leaf` along `path`: each step hashes the sibling
/// and the running hash together, the sibling first when it stands on the
/// right.
pub open spec fn merkle_path_root(leaf: Seq<u8>, path: Seq<(Vec<u8>, bool)>) -> Seq<u8>
    decreases path.len(),
{
    if path.len() == 0 {
        leaf
    } else {
        let current = merkle_path_root(leaf, path.drop_last());
        let step = path.last();
        if step.1 {
            sha256_digest(step.0@ + current)
        } else {
            sha256_digest(current + step.0@)
        }
    }
}

/// A valid transition: both states are 32 bytes and the next one is the
/// SHA-256 digest of the previous one.
pub open spec fn valid_transition(prev: Seq<u8>, next: Seq<u8>) -> bool {
    prev.len() == 32 && next.len() == 32 && next == sha256_digest(prev)
}

/// The first position `j`, from `k` on, where the state at `j` is not a
/// valid successor of the state at `j - 1`.
pub open spec fn first_bad_step(states: Seq<Vec<u8>>, k: int) -> Option<int>
    decreases states.len() - k,
{
    if k < 1 || k >= states.len() {
        None
    } else if !valid_transition(states[k - 1]@, states[k]@) {
        Some(k)
    } else {
        first_bad_step(states, k + 1)
    }
}

/// The first node, from the `n`th on, whose history holds an invalid
/// transition, with the position of its first one.
pub open spec fn first_bad_history(nodes: Seq<NodeSnapshot>, n: int) -> Option<(int, int)>
    decreases nodes.len() - n,
{
    if n < 0 || n >= nodes.len() {
        None
    } else {
        match first_bad_step(nodes[n].boc_states@, 1) {
            Some(j) => Some((n, j)),
            None => first_bad_history(nodes, n + 1),
        }
    }
}

/// The first path, from the `k`th on, that does not lead to `root`.
pub open spec fn first_bad_path(paths: Seq<MerklePath>, root: Seq<u8>, k: int) -> Option<int>
    decreases paths.len() - k,
{
    if k < 0 || k >= paths.len() {
        None
    } else if merkle_path_root(paths[k].leaf@, paths[k].path@) != root {
        Some(k)
    } else {
        first_bad_path(paths, root, k + 1)
    }
}

/// The first node, from the `n`th on, with a path that does not lead to its
/// root, with the position of its first such path.
pub open spec fn first_bad_tree(nodes: Seq<NodeSnapshot>, n: int) -> Option<(int, int)>
    decreases nodes.len() - n,
{
    if n < 0 || n >= nodes.len() {
        None
    } else {
        match first_bad_path(nodes[n].merkle_paths@, nodes[n].merkle_root@, 0) {
            Some(k) => Some((n, k)),
            None => first_bad_tree(nodes, n + 1),
        }
    }
}

/// Whether `leaf`, hashed along `path`, gives `root`.
pub fn verify_merkle_path(leaf: &[u8], path: &[(Vec<u8>, bool)], root: &[u8]) -> (r: bool)
    ensures
        r == (merkle_path_root(leaf@, path@) == root@),
{
    let mut current: Vec<u8> = Vec::new();
    push_all(&mut current, leaf);
    let mut i: usize = 0;
    while i < path.len()
        invariant
            i <= path@.len(),
            current@ == merkle_path_root(leaf@, path@.take(i as int)),
        decreases path@.len() - i,
    {
        let sibling = &path[i].0;
        let is_right = path[i].1;
        let mut input: Vec<u8> = Vec::new();
        if is_right {
            push_all(&mut input, sibling.as_slice());
            push_all(&mut input, current.as_slice());
        } else {
            push_all(&mut input, current.as_slice());
            push_all(&mut input, sibling.as_slice());
        }
        let digest = sha256(input.as_slice());
        let mut next: Vec<u8> = Vec::new();
        push_all(&mut next, &digest);
        proof {
            let t = path@.take(i + 1);
            assert(t.drop_last() =~= path@.take(i as int));
            assert(t.last() == path@[i as int]);
        }
        current = next;
        i = i + 1;
    }
    assert(path@.take(path@.len() as int) =~= path@);
    bytes_eq(current.as_slice(), root)
}

/// Whether `next` is a valid successor of `prev` (see `valid_transition`).
pub fn is_valid_transition(prev: &[u8], next: &[u8]) -> (r: bool)
    ensures
        r == valid_transition(prev@, next@),
{
    if prev.len() != 32 || next.len() != 32 {
        return false;
    }
    let expected_next = sha256(prev);
    bytes_eq(next, &expected_next)
}

/// The views of a list of 32-byte states.
pub open spec fn state_views(v: Seq<[u8; 32]>) -> Seq<Seq<u8>> {
    v.map_values(|a: [u8; 32]| a@)
}

/// The number of nodes that manage the state `s`.
pub open spec fn copies_of(nodes: Seq<NodeSnapshot>, s: Seq<u8>) -> nat
    decreases nodes.len(),
{
    if nodes.len() == 0 {
        0
    } else {
        copies_of(nodes.drop_last(), s) + if state_views(nodes.last().managed_states@).contains(s) {
            1nat
        } else {
            0nat
        }
    }
}

/// Whether every state that some node manages is managed by at least
/// `MIN_REDUNDANCY` nodes.
pub open spec fn redundancy_holds(nodes: Seq<NodeSnapshot>) -> bool {
    forall|n: int, k: int|
        0 <= n < nodes.len() && 0 <= k < nodes[n].managed_states@.len() ==> copies_of(
            nodes,
            #[trigger] nodes[n].managed_states@[k]@,
        ) >= MIN_REDUNDANCY
}

/// The values of `s` in order of first occurrence, each once.
pub open spec fn dedup_states(s: Seq<Seq<u8>>) -> Seq<Seq<u8>>
    decreases s.len(),
{
    if s.len() == 0 {
        Seq::empty()
    } else if dedup_states(s.drop_last()).contains(s.last()) {
        dedup_states(s.drop_last())
    } else {
        dedup_states(s.drop_last()).push(s.last())
    }
}

/// The number of entries of `s` that occur in `other`.
pub open spec fn count_in(s: Seq<Seq<u8>>, other: Seq<Seq<u8>>) -> nat
    decreases s.len(),
{
    if s.len() == 0 {
        0
    } else {
        count_in(s.drop_last(), other) + if other.contains(s.last()) {
            1nat
        } else {
            0nat
        }
    }
}

/// The number of entries of `s` that do not occur in `other`.
pub open spec fn count_not_in(s: Seq<Seq<u8>>, other: Seq<Seq<u8>>) -> nat
    decreases s.len(),
{
    if s.len() == 0 {
        0
    } else {
        count_not_in(s.drop_last(), other) + if other.contains(s.last()) {
            0nat
        } else {
            1nat
        }
    }
}

/// The number of distinct states that both lists hold.
pub open spec fn shared_states(a: Seq<Seq<u8>>, b: Seq<Seq<u8>>) -> nat {
    count_in(dedup_states(a), b)
}

/// The number of distinct states that either list holds.
pub open spec fn total_states(a: Seq<Seq<u8>>, b: Seq<Seq<u8>>) -> nat {
    dedup_states(a).len() + count_not_in(dedup_states(b), a)
}

/// Whether two nodes share too little: they hold no state at all, or the
/// states they share are fewer than three tenths of the states they hold.
pub open spec fn low_overlap(a: Seq<Seq<u8>>, b: Seq<Seq<u8>>) -> bool {
    total_states(a, b) == 0 || 10 * shared_states(a, b) < 3 * total_states(a, b)
}

/// Whether two nodes share too little.
pub open spec fn low_overlap_nodes(x: NodeSnapshot, y: NodeSnapshot) -> bool {
    low_overlap(state_views(x.managed_states@), state_views(y.managed_states@))
}

/// The first node from the `j`th on that shares too little with the `i`th.
pub open spec fn first_low_partner(nodes: Seq<NodeSnapshot>, i: int, j: int) -> Option<int>
    decreases nodes.len() - j,
{
    if j < 0 || j >= nodes.len() {
        None
    } else if low_overlap_nodes(nodes[i], nodes[j]) {
        Some(j)
    } else {
        first_low_partner(nodes, i, j + 1)
    }
}

/// The first pair of nodes `(i, j)`, `i < j`, from the `i`th on, that share
/// too little, in the order of `i` then `j`.
pub open spec fn first_low_pair(nodes: Seq<NodeSnapshot>, i: int) -> Option<(int, int)>
    decreases nodes.len() - i,
{
    if i < 0 || i >= nodes.len() {
        None
    } else {
        match first_low_partner(nodes, i, i + 1) {
            Some(j) => Some((i, j)),
            None => first_low_pair(nodes, i + 1),
        }
    }
}

/// `e` reports a state that some node manages and that fewer than
/// `MIN_REDUNDANCY` nodes manage, with its number of copies.
pub open spec fn redundancy_error(nodes: Seq<NodeSnapshot>, e: ConsistencyError) -> bool {
    &&& e matches ConsistencyError::InsufficientRedundancy { state_id, copies, required }
    &&& e->required == MIN_REDUNDANCY
    &&& e->copies == copies_of(nodes, e->state_id@)
    &&& e->copies < MIN_REDUNDANCY
    &&& exists|n: int, k: int|
        0 <= n < nodes.len() && 0 <= k < nodes[n].managed_states@.len()
            && #[trigger] nodes[n].managed_states@[k] == e->state_id
}

/// `e` reports the transition into position `j` of the history of node `n`.
pub open spec fn transition_error(nodes: Seq<NodeSnapshot>, n: int, j: int, e: ConsistencyError) -> bool {
    &&& e matches ConsistencyError::InvalidStateTransition { from, to, node_id }
    &&& e->from@ == nodes[n].boc_states@[j - 1]@
    &&& e->to@ == nodes[n].boc_states@[j]@
    &&& e->InvalidStateTransition_node_id == nodes[n].node_id
}

/// `e` reports path `k` of node `n`.
pub open spec fn merkle_path_error(nodes: Seq<NodeSnapshot>, n: int, k: int, e: ConsistencyError) -> bool {
    &&& e matches ConsistencyError::InvalidMerklePath { leaf, root, node_id }
    &&& e->leaf@ == nodes[n].merkle_paths@[k].leaf@
    &&& e->root == nodes[n].merkle_root
    &&& e->InvalidMerklePath_node_id == nodes[n].node_id
}

/// `e` reports the overlap of nodes `i` and `j`.
pub open spec fn overlap_error(nodes: Seq<NodeSnapshot>, i: int, j: int, e: ConsistencyError) -> bool {
    &&& e matches ConsistencyError::InsufficientNodeOverlap { node1_id, node2_id, shared, total }
    &&& e->node1_id == nodes[i].node_id
    &&& e->node2_id == nodes[j].node_id
    &&& e->shared == shared_states(
        state_views(nodes[i].managed_states@),
        state_views(nodes[j].managed_states@),
    )
    &&& e->total == total_states(
        state_views(nodes[i].managed_states@),
        state_views(nodes[j].managed_states@),
    )
}

/// No two nodes hold so many states together that counting them overflows.
pub open spec fn state_counts_fit(nodes: Seq<NodeSnapshot>) -> bool {
    forall|i: int, j: int|
        0 <= i < nodes.len() && 0 <= j < nodes.len() ==> #[trigger] nodes[i].managed_states@.len()
            + #[trigger] nodes[j].managed_states@.len() <= usize::MAX
}

/// Whether the state `s` is in the list.
pub(crate) fn contains_state(v: &Vec<[u8; 32]>, s: &[u8; 32]) -> (r: bool)
    ensures
        r == state_views(v@).contains(s@),
{
    let mut i: usize = 0;
    while i < v.len()
        invariant
            i <= v@.len(),
            forall|j: int| 0 <= j < i ==> #[trigger] state_views(v@)[j] != s@,
        decreases v@.len() - i,
    {
        if bytes32_eq(&v[i], s) {
            assert(state_views(v@)[i as int] == s@);
            return true;
        }
        i = i + 1;
    }
    false
}

/// The number of nodes that manage the state `s`.
fn count_copies(nodes: &Vec<NodeSnapshot>, s: &[u8; 32]) -> (r: usize)
    ensures
        r == copies_of(nodes@, s@),
{
    let mut count: usize = 0;
    let mut m: usize = 0;
    while m < nodes.len()
        invariant
            m <= nodes@.len(),
            count <= m,
            count == copies_of(nodes@.take(m as int), s@),
        decreases nodes@.len() - m,
    {
        proof {
            let t = nodes@.take(m + 1);
            assert(t.drop_last() =~= nodes@.take(m as int));
            assert(t.last() == nodes@[m as int]);
        }
        if contains_state(&nodes[m].managed_states, s) {
            count = count + 1;
        }
        m = m + 1;
    }
    assert(nodes@.take(nodes@.len() as int) =~= nodes@);
    count
}

/// The distinct states of the list, in order of first occurrence.
pub(crate) fn distinct_states(v: &Vec<[u8; 32]>) -> (r: Vec<[u8; 32]>)
    ensures
        state_views(r@) == dedup_states(state_views(v@)),
        r@.len() <= v@.len(),
{
    let mut out: Vec<[u8; 32]> = Vec::new();
    let mut i: usize = 0;
    while i < v.len()
        invariant
            i <= v@.len(),
            out@.len() <= i,
            state_views(out@) == dedup_states(state_views(v@).take(i as int)),
        decreases v@.len() - i,
    {
        let ghost before = out@;
        proof {
            let t = state_views(v@).take(i + 1);
            assert(t.drop_last() =~= state_views(v@).take(i as int));
            assert(t.last() == v@[i as int]@);
        }
        if !contains_state(&out, &v[i]) {
            out.push(v[i]);
            assert(state_views(out@) =~= state_views(before).push(v@[i as int]@));
        }
        i = i + 1;
    }
    assert(state_views(v@).take(v@.len() as int) =~= state_views(v@));
    out
}

/// The number of entries of `s` that occur in `other` (`inside`) or that do
/// not (`!inside`).
pub(crate) fn count_membership(s: &Vec<[u8; 32]>, other: &Vec<[u8; 32]>, inside: bool) -> (r: usize)
    ensures
        inside ==> r == count_in(state_views(s@), state_views(other@)),
        !inside ==> r == count_not_in(state_views(s@), state_views(other@)),
        r <= s@.len(),
{
    let mut count: usize = 0;
    let mut i: usize = 0;
    while i < s.len()
        invariant
            i <= s@.len(),
            count <= i,
            inside ==> count == count_in(state_views(s@).take(i as int), state_views(other@)),
            !inside ==> count == count_not_in(state_views(s@).take(i as int), state_views(other@)),
        decreases s@.len() - i,
    {
        proof {
            let t = state_views(s@).take(i + 1);
            assert(t.drop_last() =~= state_views(s@).take(i as int));
            assert(t.last() == s@[i as int]@);
        }
        if contains_state(other, &s[i]) == inside {
            count = count + 1;
        }
        i = i + 1;
    }
    assert(state_views(s@).take(s@.len() as int) =~= state_views(s@));
    count
}

/// Holds the snapshots of the storage nodes to check.
pub struct ConsistencyChecker {
    storage_nodes: Vec<NodeSnapshot>,
    max_depth: usize,
}

impl ConsistencyChecker {
    /// A checker of the given nodes, with a depth limit of 1024.
    pub fn new(nodes: Vec<NodeSnapshot>) -> (r: ConsistencyChecker)
        ensures
            r.nodes() == nodes@,
            r.max_depth() == 1024,
    {
        ConsistencyChecker { storage_nodes: nodes, max_depth: 1024 }
    }

    /// The nodes being checked.
    pub closed spec fn nodes(&self) -> Seq<NodeSnapshot> {
        self.storage_nodes@
    }

    /// The depth limit of the checker.
    pub closed spec fn max_depth(&self) -> usize {
        self.max_depth
    }

    /// Checks that every managed state is held by at least `MIN_REDUNDANCY`
    /// nodes; otherwise reports a state held by fewer, with its number of
    /// copies.
    pub fn verify_redundancy_factor(&self) -> (r: Result<(), ConsistencyError>)
        ensures
            redundancy_holds(self.nodes()) ==> r is Ok,
            !redundancy_holds(self.nodes()) ==> (r matches Err(e) && redundancy_error(
                self.nodes(),
                e,
            )),
    {
        let nodes = &self.storage_nodes;
        let mut n: usize = 0;
        while n < nodes.len()
            invariant
                n <= nodes@.len(),
                nodes@ == self.nodes(),
                forall|a: int, k: int|
                    0 <= a < n && 0 <= k < nodes@[a].managed_states@.len() ==> copies_of(
                        nodes@,
                        #[trigger] nodes@[a].managed_states@[k]@,
                    ) >= MIN_REDUNDANCY,
            decreases nodes@.len() - n,
        {
            let states = &nodes[n].managed_states;
            let mut k: usize = 0;
            while k < states.len()
                invariant
                    k <= states@.len(),
                    n < nodes@.len(),
                    states == &nodes@[n as int].managed_states,
                    nodes@ == self.nodes(),
                    forall|a: int, j: int|
                        0 <= a < n && 0 <= j < nodes@[a].managed_states@.len() ==> copies_of(
                            nodes@,
                            #[trigger] nodes@[a].managed_states@[j]@,
                        ) >= MIN_REDUNDANCY,
                    forall|j: int|
                        0 <= j < k ==> copies_of(nodes@, #[trigger] states@[j]@) >= MIN_REDUNDANCY,
                decreases states@.len() - k,
            {
                let copies = count_copies(nodes, &states[k]);
                if copies < MIN_REDUNDANCY {
                    assert(self.nodes()[n as int].managed_states@[k as int] == states@[k as int]);
                    return Err(
                        ConsistencyError::InsufficientRedundancy {
                            state_id: states[k],
                            copies,
                            required: MIN_REDUNDANCY,
                        },
                    );
                }
                k = k + 1;
            }
            n = n + 1;
        }
        Ok(())
    }

    /// Checks each node's history of states, oldest first; reports the first
    /// invalid transition (see `valid_transition`) of the first node that
    /// has one.
    pub fn verify_boc_transitions(&self) -> (r: Result<(), ConsistencyError>)
        ensures
            match first_bad_history(self.nodes(), 0) {
                None => r is Ok,
                Some((n, j)) => r matches Err(e) && transition_error(self.nodes(), n, j, e),
            },
    {
        let nodes = &self.storage_nodes;
        let mut n: usize = 0;
        while n < nodes.len()
            invariant
                n <= nodes@.len(),
                nodes@ == self.nodes(),
                first_bad_history(nodes@, 0) == first_bad_history(nodes@, n as int),
            decreases nodes@.len() - n,
        {
            let states = &nodes[n].boc_states;
            let mut i: usize = 1;
            while i < states.len()
                invariant
                    1 <= i,
                    n < nodes@.len(),
                    states == &nodes@[n as int].boc_states,
                    nodes@ == self.nodes(),
                    first_bad_history(nodes@, 0) == first_bad_history(nodes@, n as int),
                    first_bad_step(states@, 1) == first_bad_step(states@, i as int),
                decreases states@.len() - i,
            {
                if !is_valid_transition(states[i - 1].as_slice(), states[i].as_slice()) {
                    assert(first_bad_step(states@, i as int) == Some(i as int));
                    assert(first_bad_history(nodes@, n as int) == Some((n as int, i as int)));
                    let mut from: Vec<u8> = Vec::new();
                    push_all(&mut from, states[i - 1].as_slice());
                    let mut to: Vec<u8> = Vec::new();
                    push_all(&mut to, states[i].as_slice());
                    return Err(
                        ConsistencyError::InvalidStateTransition {
                            from,
                            to,
                            node_id: nodes[n].node_id,
                        },
                    );
                }
                i = i + 1;
            }
            n = n + 1;
        }
        Ok(())
    }

    /// Checks that every path of every node leads to the node's root;
    /// reports the first path that does not, of the first node that has one.
    pub fn verify_merkle_paths(&self) -> (r: Result<(), ConsistencyError>)
        ensures
            match first_bad_tree(self.nodes(), 0) {
                None => r is Ok,
                Some((n, k)) => r matches Err(e) && merkle_path_error(self.nodes(), n, k, e),
            },
    {
        let nodes = &self.storage_nodes;
        let mut n: usize = 0;
        while n < nodes.len()
            invariant
                n <= nodes@.len(),
                nodes@ == self.nodes(),
                first_bad_tree(nodes@, 0) == first_bad_tree(nodes@, n as int),
            decreases nodes@.len() - n,
        {
            let node = &nodes[n];
            let paths = &node.merkle_paths;
            let mut k: usize = 0;
            while k < paths.len()
                invariant
                    k <= paths@.len(),
                    n < nodes@.len(),
                    node == &nodes@[n as int],
                    paths == &node.merkle_paths,
                    nodes@ == self.nodes(),
                    first_bad_tree(nodes@, 0) == first_bad_tree(nodes@, n as int),
                    first_bad_path(paths@, node.merkle_root@, 0) == first_bad_path(
                        paths@,
                        node.merkle_root@,
                        k as int,
                    ),
                decreases paths@.len() - k,
            {
                let entry = &paths[k];
                if !verify_merkle_path(entry.leaf.as_slice(), entry.path.as_slice(), &node.merkle_root) {
                    assert(first_bad_path(paths@, node.merkle_root@, k as int) == Some(k as int));
                    assert(first_bad_tree(nodes@, n as int) == Some((n as int, k as int)));
                    let mut leaf: Vec<u8> = Vec::new();
                    push_all(&mut leaf, entry.leaf.as_slice());
                    return Err(
                        ConsistencyError::InvalidMerklePath {
                            leaf,
                            root: node.merkle_root,
                            node_id: node.node_id,
                        },
                    );
                }
                k = k + 1;
            }
            n = n + 1;
        }
        Ok(())
    }

    /// The number of distinct states the two nodes share, and the number of
    /// distinct states they hold together.
    pub fn calculate_overlap(&self, node1: &NodeSnapshot, node2: &NodeSnapshot) -> (r: (usize, usize))
        requires
            node1.managed_states@.len() + node2.managed_states@.len() <= usize::MAX,
        ensures
            r.0 == shared_states(
                state_views(node1.managed_states@),
                state_views(node2.managed_states@),
            ),
            r.1 == total_states(state_views(node1.managed_states@), state_views(node2.managed_states@)),
    {
        let states1 = distinct_states(&node1.managed_states);
        let states2 = distinct_states(&node2.managed_states);
        let intersection = count_membership(&states1, &node2.managed_states, true);
        let only_second = count_membership(&states2, &node1.managed_states, false);
        (intersection, states1.len() + only_second)
    }

    /// Checks every pair of nodes, in order; reports the first pair that
    /// shares too little (see `low_overlap`): the overlap threshold is 0.3,
    /// compared exactly as a fraction.
    pub fn verify_node_overlap(&self) -> (r: Result<(), ConsistencyError>)
        requires
            state_counts_fit(self.nodes()),
        ensures
            match first_low_pair(self.nodes(), 0) {
                None => r is Ok,
                Some((i, j)) => r matches Err(e) && overlap_error(self.nodes(), i, j, e),
            },
    {
        let nodes = &self.storage_nodes;
        let mut i: usize = 0;
        while i < nodes.len()
            invariant
                i <= nodes@.len(),
                nodes@ == self.nodes(),
                state_counts_fit(nodes@),
                first_low_pair(nodes@, 0) == first_low_pair(nodes@, i as int),
            decreases nodes@.len() - i,
        {
            let mut j: usize = i + 1;
            while j < nodes.len()
                invariant
                    i < nodes@.len(),
                    i + 1 <= j,
                    nodes@ == self.nodes(),
                    state_counts_fit(nodes@),
                    first_low_pair(nodes@, 0) == first_low_pair(nodes@, i as int),
                    first_low_partner(nodes@, i as int, i + 1) == first_low_partner(
                        nodes@,
                        i as int,
                        j as int,
                    ),
                decreases nodes@.len() - j,
            {
                assert(nodes@[i as int].managed_states@.len() + nodes@[j as int].managed_states@.len()
                    <= usize::MAX);
                let (shared, total) = self.calculate_overlap(&nodes[i], &nodes[j]);
                if total == 0 || (shared as u128) * 10 < (total as u128) * 3 {
                    assert(low_overlap_nodes(nodes@[i as int], nodes@[j as int]));
                    assert(first_low_partner(nodes@, i as int, j as int) == Some(j as int));
                    assert(first_low_pair(nodes@, i as int) == Some((i as int, j as int)));
                    return Err(
                        ConsistencyError::InsufficientNodeOverlap {
                            node1_id: nodes[i].node_id,
                            node2_id: nodes[j].node_id,
                            shared,
                            total,
                        },
                    );
                }
                j = j + 1;
            }
            i = i + 1;
        }
        Ok(())
    }

    /// Runs the checks in turn (redundancy, histories, Merkle paths,
    /// overlaps) and reports the error of the first that fails.
    pub fn verify_global_consistency(&self) -> (r: Result<(), ConsistencyError>)
        requires
            state_counts_fit(self.nodes()),
        ensures
            !redundancy_holds(self.nodes()) ==> (r matches Err(e) && redundancy_error(
                self.nodes(),
                e,
            )),
            redundancy_holds(self.nodes()) ==> match first_bad_history(self.nodes(), 0) {
                Some((n, j)) => r matches Err(e) && transition_error(self.nodes(), n, j, e),
                None => match first_bad_tree(self.nodes(), 0) {
                    Some((n, k)) => r matches Err(e) && merkle_path_error(self.nodes(), n, k, e),
                    None => match first_low_pair(self.nodes(), 0) {
                        Some((i, j)) => r matches Err(e) && overlap_error(self.nodes(), i, j, e),
                        None => r is Ok,
                    },
                },
            },
    {
        match self.verify_redundancy_factor() {
            Ok(()) => {},
            Err(e) => return Err(e),
        }
        match self.verify_boc_transitions() {
            Ok(()) => {},
            Err(e) => return Err(e),
        }
        match self.verify_merkle_paths() {
            Ok(()) => {},
            Err(e) => return Err(e),
        }
        self.verify_node_overlap()
    }
}

/// Read access to what a node's Merkle tree holds.
pub trait MerkleTreeBehavior {
    fn get_managed_states(&self) -> Vec<[u8; 32]>;

    fn root(&self) -> [u8; 32];
}

impl MerkleTreeBehavior for NodeSnapshot {
    /// A copy of the managed states.
    fn get_managed_states(&self) -> (r: Vec<[u8; 32]>)
        ensures
            r@ == self.managed_states@,
    {
        let mut out: Vec<[u8; 32]> = Vec::new();
        let mut i: usize = 0;
        while i < self.managed_states.len()
            invariant
                i <= self.managed_states@.len(),
                out@ == self.managed_states@.take(i as int),
            decreases self.managed_states@.len() - i,
        {
            out.push(self.managed_states[i]);
            i = i + 1;
            assert(out@ =~= self.managed_states@.take(i as int));
        }
        assert(self.managed_states@.take(self.managed_states@.len() as int) =~= self.managed_states@);
        out
    }

    /// The root of the node's Merkle tree.
    fn root(&self) -> (r: [u8; 32])
        ensures
            r == self.merkle_root,
    {
        self.merkle_root
    }
}

} // verus!
