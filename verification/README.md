# overpass

The verified core of the Overpass off-chain channel library, written in
Verus: every function in `src/` carries a contract that Verus proves.

- `types/` — operation codes with their byte encodings, the protocol's data
  types, and index-addressed cells and bags with SHA-256 helpers.
- `state/boc/` — bounded cells and their binary encodings, the bag builder,
  parser and compact serializer, and the structural verifier of bags
  (limits, per-cell rules, roots, depth-bounded cycle search).
- `state/consistency_checker.rs` — redundancy, hash-chain, Merkle-path and
  overlap checks over storage-node snapshots.
- `storage_node/` — the storage node (stake, battery, peers, stored bags),
  its battery, rewards, synchronisation boost, challenge and response
  decisions, and wallet assignments.
- `tokens/`, `validation/`, `zkps/`, `sparse_merkle_tree.rs` — token
  bookkeeping, message validation, proof-input checks and a key-value tree.

SHA-256 comes from the `sha2` crate through one function with an assumed contract in
`crypto.rs`. `app/` holds what Verus does not check: logger set-up, JSON
encoding of bags, the timed loops around the battery, and the
floating-point views (charge percentages, overlap scores).
