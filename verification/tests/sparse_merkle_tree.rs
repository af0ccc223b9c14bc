use overpass::sparse_merkle_tree::SparseMerkleTree;
use sha2::{Digest, Sha256};

fn digest(parts: &[&[u8]]) -> Vec<u8> {
    let mut h = Sha256::new();
    for p in parts {
        h.update(p);
    }
    h.finalize().to_vec()
}

#[test]
fn new_tree_has_zero_root() {
    let t = SparseMerkleTree::new();
    assert_eq!(t.get_root(), vec![0u8; 32]);
    assert_eq!(t.get(b"a"), None);
}

#[test]
fn insert_stores_digest_and_moves_root() {
    let mut t = SparseMerkleTree::new();
    t.insert(b"key", b"value");
    assert_eq!(t.get(b"key"), Some(digest(&[b"key", b"value"])));
    assert_eq!(t.get_root(), digest(&[b"key", b"value"]));
    t.insert(b"other", b"x");
    assert_eq!(t.get_root(), digest(&[b"other", b"x"]));
    assert_eq!(t.get(b"key"), Some(digest(&[b"key", b"value"])));
    t.insert(b"key", b"new");
    assert_eq!(t.get(b"key"), Some(digest(&[b"key", b"new"])));
    assert_eq!(t.get(b"missing"), None);
}
