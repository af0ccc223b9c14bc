//! A key-value tree whose root is the digest of the last entry written:
//! each key maps to the SHA-256 digest of the key and its value.

use vstd::prelude::*;
use crate::bytes::{bytes_eq, push_all};
use crate::crypto::{sha256, sha256_digest};
use crate::entries::{first_key, lemma_first_key_from, lookup, stored_after};

verus! {

/// The tree: its entries, key then digest, and its root.
pub struct SparseMerkleTree {
    nodes: Vec<(Vec<u8>, Vec<u8>)>,
    root: Vec<u8>,
}

/// The tree as a mathematical value.
pub struct TreeView {
    pub nodes: Seq<(Seq<u8>, Seq<u8>)>,
    pub root: Seq<u8>,
}

/// The entries as mathematical values.
pub open spec fn node_views(s: Seq<(Vec<u8>, Vec<u8>)>) -> Seq<(Seq<u8>, Seq<u8>)> {
    s.map_values(|e: (Vec<u8>, Vec<u8>)| (e.0@, e.1@))
}

/// The digest stored for `value` under `key`.
pub open spec fn leaf_digest(key: Seq<u8>, value: Seq<u8>) -> Seq<u8> {
    sha256_digest(key + value)
}

impl View for SparseMerkleTree {
    type V = TreeView;

    closed spec fn view(&self) -> TreeView {
        TreeView { nodes: node_views(self.nodes@), root: self.root@ }
    }
}

/// The index of the entry with key `k`, if any.
fn find_node(nodes: &Vec<(Vec<u8>, Vec<u8>)>, k: &[u8]) -> (r: Option<usize>)
    ensures
        match first_key(node_views(nodes@), k@, 0) {
            Some(i) => r == Some(i as usize) && 0 <= i < nodes@.len(),
            None => r is None,
        },
        r matches Some(j) ==> first_key(node_views(nodes@), k@, 0) == Some(j as int),
{
    let ghost s = node_views(nodes@);
    let mut i: usize = 0;
    while i < nodes.len()
        invariant
            i <= nodes@.len(),
            s == node_views(nodes@),
            forall|m: int| 0 <= m < i ==> #[trigger] s[m].0 != k@,
        decreases nodes@.len() - i,
    {
        assert(s[i as int].0 == nodes@[i as int].0@);
        if bytes_eq(nodes[i].0.as_slice(), k) {
            proof {
                lemma_first_key_from(s, k@, i as int);
            }
            return Some(i);
        }
        i = i + 1;
    }
    proof {
        lemma_first_key_from(s, k@, i as int);
    }
    None
}

impl SparseMerkleTree {
    /// An empty tree with a root of 32 zero bytes.
    pub fn new() -> (r: SparseMerkleTree)
        ensures
            r@.nodes.len() == 0,
            r@.root == Seq::new(32, |i: int| 0u8),
    {
        let t = SparseMerkleTree { nodes: Vec::new(), root: vec![0u8; 32] };
        assert(t@.root =~= Seq::new(32, |i: int| 0u8));
        t
    }

    /// Stores the digest of `key` and `value` under `key`, and makes it the
    /// root.
    pub fn insert(&mut self, key: &[u8], value: &[u8])
        ensures
            final(self)@.nodes == stored_after(old(self)@.nodes, key@, leaf_digest(key@, value@)),
            final(self)@.root == leaf_digest(key@, value@),
    {
        let mut input: Vec<u8> = Vec::new();
        push_all(&mut input, key);
        push_all(&mut input, value);
        let digest = sha256(input.as_slice());
        let mut hash: Vec<u8> = Vec::new();
        push_all(&mut hash, &digest);
        let mut root: Vec<u8> = Vec::new();
        push_all(&mut root, &digest);
        let mut k: Vec<u8> = Vec::new();
        push_all(&mut k, key);
        match find_node(&self.nodes, key) {
            Some(i) => {
                self.nodes.set(i, (k, hash));
                assert(node_views(self.nodes@) =~= node_views(old(self).nodes@).update(
                    i as int,
                    (key@, leaf_digest(key@, value@)),
                ));
            },
            None => {
                self.nodes.push((k, hash));
                assert(node_views(self.nodes@) =~= node_views(old(self).nodes@).push(
                    (key@, leaf_digest(key@, value@)),
                ));
            },
        }
        self.root = root;
    }

    /// The digest stored under `key`, if any.
    pub fn get(&self, key: &[u8]) -> (r: Option<Vec<u8>>)
        ensures
            match lookup(self@.nodes, key@) {
                Some(v) => r matches Some(x) && x@ == v,
                None => r is None,
            },
    {
        match find_node(&self.nodes, key) {
            Some(i) => {
                assert(self@.nodes[i as int].1 == self.nodes@[i as int].1@);
                let mut out: Vec<u8> = Vec::new();
                push_all(&mut out, self.nodes[i].1.as_slice());
                Some(out)
            },
            None => None,
        }
    }

    /// The root.
    pub fn get_root(&self) -> (r: Vec<u8>)
        ensures
            r@ == self@.root,
    {
        let mut out: Vec<u8> = Vec::new();
        push_all(&mut out, self.root.as_slice());
        out
    }
}

} // verus!
