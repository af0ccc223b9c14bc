//! Cells of a bag of cells: bounded data, a bounded list of references to
//! other cells, a type and a Merkle hash; with their binary encoding.

use vstd::prelude::*;
use crate::bytes::{
    lemma_read_u32_at_encoding,
    lemma_u32_le_roundtrip,
    push_all,
    push_u32_le,
    read_u32_at,
    read_u32_le,
    u32_le,
};
use crate::crypto::{sha256, sha256_digest};
use crate::error::CellError;
use crate::types::ovp_types::{
    CellData,
    CellReference,
    CellType,
    ReferenceView,
    cell_type_byte,
    cell_type_from_byte,
};

verus! {

/// The most references a cell holds.
pub const MAX_REFERENCES: usize = 4;

/// The most data bytes a cell holds.
pub const MAX_BYTES: usize = 128;

/// A cell as a mathematical value.
#[verifier::ext_equal]
pub struct CellView {
    pub data: Seq<u8>,
    pub references: Seq<ReferenceView>,
    pub cell_type: CellType,
    pub merkle_hash: Seq<u8>,
    pub level: u8,
}

/// A cell within its bounds: at most `MAX_BYTES` data bytes and at most
/// `MAX_REFERENCES` references.
pub open spec fn cell_view_wf(v: CellView) -> bool {
    &&& v.data.len() <= MAX_BYTES
    &&& v.references.len() <= MAX_REFERENCES
    &&& v.merkle_hash.len() == 32
    &&& forall|i: int| 0 <= i < v.references.len() ==> #[trigger] v.references[i].merkle_hash.len() == 32
}

/// The Merkle hashes of the references, one after the other.
pub open spec fn reference_hashes(refs: Seq<ReferenceView>) -> Seq<u8>
    decreases refs.len(),
{
    if refs.len() == 0 {
        Seq::empty()
    } else {
        reference_hashes(refs.drop_last()) + refs.last().merkle_hash
    }
}

/// What the Merkle hash of a cell is the digest of: its type byte, its data
/// and the hashes of its references.
pub open spec fn merkle_hash_input(v: CellView) -> Seq<u8> {
    seq![cell_type_byte(v.cell_type)] + v.data + reference_hashes(v.references)
}

/// The hashes of references take 32 bytes each, and the `i`th block of 32
/// bytes is the hash of the `i`th reference.
pub proof fn lemma_reference_hashes(s: Seq<ReferenceView>)
    requires
        forall|i: int| 0 <= i < s.len() ==> #[trigger] s[i].merkle_hash.len() == 32,
    ensures
        reference_hashes(s).len() == 32 * s.len(),
        forall|i: int|
            0 <= i < s.len() ==> #[trigger] reference_hashes(s).subrange(32 * i, 32 * i + 32)
                == s[i].merkle_hash,
    decreases s.len(),
{
    if s.len() > 0 {
        let t = s.drop_last();
        assert forall|i: int| 0 <= i < t.len() implies #[trigger] t[i].merkle_hash.len() == 32 by {
            assert(t[i] == s[i]);
        }
        lemma_reference_hashes(t);
        let e = reference_hashes(t);
        let r = s.last().merkle_hash;
        assert(reference_hashes(s) == e + r);
        assert forall|i: int| 0 <= i < s.len() implies #[trigger] reference_hashes(s).subrange(
            32 * i,
            32 * i + 32,
        ) == s[i].merkle_hash by {
            if i < s.len() - 1 {
                assert(32 * i + 32 <= 32 * t.len()) by (nonlinear_arith)
                    requires
                        i < t.len(),
                ;
                assert(t[i] == s[i]);
                assert((e + r).subrange(32 * i, 32 * i + 32) =~= e.subrange(32 * i, 32 * i + 32));
            } else {
                assert(32 * i == 32 * t.len());
                assert((e + r).subrange(32 * i, 32 * i + 32) =~= r);
            }
        }
    }
}

/// The content hash covers the data and every reference: its input is the
/// data followed by one 32-byte block per reference, the `i`th block being
/// that reference's hash. So two cells with the same data have the same
/// input exactly when they hold as many references with the same hashes.
pub proof fn lemma_content_hash_input_covers_references(v: CellView, w: CellView)
    requires
        cell_view_wf(v),
        cell_view_wf(w),
    ensures
        content_hash_input(v).len() == v.data.len() + 32 * v.references.len(),
        content_hash_input(v).subrange(0, v.data.len() as int) == v.data,
        forall|i: int|
            0 <= i < v.references.len() ==> #[trigger] content_hash_input(v).subrange(
                v.data.len() + 32 * i,
                v.data.len() + 32 * i + 32,
            ) == v.references[i].merkle_hash,
        v.data == w.data ==> (content_hash_input(v) == content_hash_input(w) <==> (
        v.references.len() == w.references.len() && forall|i: int|
            0 <= i < v.references.len() ==> #[trigger] v.references[i].merkle_hash
                == w.references[i].merkle_hash)),
{
    lemma_reference_hashes(v.references);
    lemma_reference_hashes(w.references);
    let hv = reference_hashes(v.references);
    let hw = reference_hashes(w.references);
    let n = v.data.len() as int;
    let iv = content_hash_input(v);
    assert(iv == v.data + hv);
    assert(iv.subrange(0, n) =~= v.data);
    assert forall|i: int| 0 <= i < v.references.len() implies #[trigger] iv.subrange(
        n + 32 * i,
        n + 32 * i + 32,
    ) == v.references[i].merkle_hash by {
        assert(32 * i + 32 <= 32 * v.references.len()) by (nonlinear_arith)
            requires
                i < v.references.len(),
        ;
        assert(iv.subrange(n + 32 * i, n + 32 * i + 32) =~= hv.subrange(32 * i, 32 * i + 32));
    }
    if v.data == w.data {
        let iw = content_hash_input(w);
        if iv == iw {
            assert(hv =~= iv.subrange(n, iv.len() as int));
            assert(hw =~= iw.subrange(n, iw.len() as int));
            assert(hv == hw);
            assert(v.references.len() == w.references.len());
            assert forall|i: int| 0 <= i < v.references.len() implies #[trigger] v.references[i].merkle_hash
                == w.references[i].merkle_hash by {
                assert(32 * i + 32 <= 32 * v.references.len()) by (nonlinear_arith)
                    requires
                        i < v.references.len(),
                ;
                assert(hv.subrange(32 * i, 32 * i + 32) == v.references[i].merkle_hash);
                assert(hw.subrange(32 * i, 32 * i + 32) == w.references[i].merkle_hash);
            }
        }
        if v.references.len() == w.references.len() && forall|i: int|
            0 <= i < v.references.len() ==> #[trigger] v.references[i].merkle_hash
                == w.references[i].merkle_hash {
            assert(hv.len() == hw.len());
            assert forall|j: int| 0 <= j < hv.len() implies hv[j] == hw[j] by {
                let i = j / 32;
                assert(0 <= i < v.references.len() && 32 * i <= j < 32 * i + 32) by (nonlinear_arith)
                    requires
                        0 <= j < 32 * v.references.len(),
                        i == j / 32,
                ;
                assert(hv.subrange(32 * i, 32 * i + 32)[j - 32 * i] == hv[j]);
                assert(hw.subrange(32 * i, 32 * i + 32)[j - 32 * i] == hw[j]);
                assert(v.references[i].merkle_hash == w.references[i].merkle_hash);
            }
            assert(hv =~= hw);
        }
    }
}

/// What the content hash of a cell is the digest of: its data and the
/// hashes of its references.
pub open spec fn content_hash_input(v: CellView) -> Seq<u8> {
    v.data + reference_hashes(v.references)
}

/// The encoding of a reference: its index as a little-endian `u32`, then its
/// hash.
pub open spec fn reference_encoding(r: ReferenceView) -> Seq<u8> {
    u32_le(r.cell_index as u32) + r.merkle_hash
}

/// The encodings of references, one after the other.
pub open spec fn references_encoding(refs: Seq<ReferenceView>) -> Seq<u8>
    decreases refs.len(),
{
    if refs.len() == 0 {
        Seq::empty()
    } else {
        references_encoding(refs.drop_last()) + reference_encoding(refs.last())
    }
}

/// The encoding of a cell: data length (`u32`), data, reference count
/// (`u32`), references, type byte, Merkle hash.
pub open spec fn cell_encoding(v: CellView) -> Seq<u8> {
    u32_le(v.data.len() as u32) + v.data + u32_le(v.references.len() as u32)
        + references_encoding(v.references) + seq![cell_type_byte(v.cell_type)]
        + v.merkle_hash
}

/// The reference encoded at `p` (36 bytes).
pub open spec fn reference_at(b: Seq<u8>, p: int) -> ReferenceView {
    ReferenceView {
        cell_index: read_u32_at(b, p).unwrap() as usize,
        merkle_hash: b.subrange(p + 4, p + 36),
    }
}

/// Decoding of a cell at `pos`: the cell and the position after it.
/// The fields are read in encoding order; running out of bytes gives
/// `UnexpectedEof`, an unknown type byte (read before the hash) gives
/// `InvalidData`, and a complete encoding whose data or references exceed
/// the cell bounds gives `InvalidData`. The encoding carries no level, so
/// the decoded cell has level 0.
#[verifier::opaque]
pub open spec fn cell_decode(b: Seq<u8>, pos: int) -> Result<(CellView, int), CellError> {
    match read_u32_at(b, pos) {
        None => Err(CellError::UnexpectedEof),
        Some(dl) => {
            let p1 = pos + 4;
            let p2 = p1 + dl;
            if p2 > b.len() {
                Err(CellError::UnexpectedEof)
            } else {
                match read_u32_at(b, p2) {
                    None => Err(CellError::UnexpectedEof),
                    Some(rl) => {
                        let p3 = p2 + 4;
                        let p4 = p3 + 36 * rl;
                        if p4 > b.len() {
                            Err(CellError::UnexpectedEof)
                        } else if p4 + 1 > b.len() {
                            Err(CellError::UnexpectedEof)
                        } else if cell_type_from_byte(b[p4]) is None {
                            Err(CellError::InvalidData)
                        } else if p4 + 33 > b.len() {
                            Err(CellError::UnexpectedEof)
                        } else if dl > MAX_BYTES || rl > MAX_REFERENCES {
                            Err(CellError::InvalidData)
                        } else {
                            Ok(
                                (
                                    CellView {
                                        data: b.subrange(p1, p2),
                                        references: Seq::new(
                                            rl as nat,
                                            |i: int| reference_at(b, p3 + 36 * i),
                                        ),
                                        cell_type: cell_type_from_byte(b[p4]).unwrap(),
                                        merkle_hash: b.subrange(p4 + 1, p4 + 33),
                                        level: 0,
                                    },
                                    p4 + 33,
                                ),
                            )
                        }
                    },
                }
            }
        },
    }
}

/// References whose indices fit in a `u32`, as the encoding stores them.
pub open spec fn references_fit_u32(refs: Seq<ReferenceView>) -> bool {
    forall|i: int| 0 <= i < refs.len() ==> #[trigger] refs[i].cell_index <= u32::MAX
}

/// The encoding of references has 36 bytes per reference, and the `i`th
/// block of 36 bytes is the encoding of the `i`th reference.
pub proof fn lemma_references_encoding(s: Seq<ReferenceView>)
    requires
        forall|i: int| 0 <= i < s.len() ==> #[trigger] s[i].merkle_hash.len() == 32,
    ensures
        references_encoding(s).len() == 36 * s.len(),
        forall|i: int|
            0 <= i < s.len() ==> #[trigger] references_encoding(s).subrange(36 * i, 36 * i + 36)
                == reference_encoding(s[i]),
    decreases s.len(),
{
    if s.len() > 0 {
        let t = s.drop_last();
        assert forall|i: int| 0 <= i < t.len() implies #[trigger] t[i].merkle_hash.len() == 32 by {
            assert(t[i] == s[i]);
        }
        lemma_references_encoding(t);
        let e = references_encoding(t);
        let r = reference_encoding(s.last());
        assert(references_encoding(s) == e + r);
        assert(r.len() == 36);
        assert forall|i: int| 0 <= i < s.len() implies #[trigger] references_encoding(s).subrange(
            36 * i,
            36 * i + 36,
        ) == reference_encoding(s[i]) by {
            if i < s.len() - 1 {
                assert(36 * i + 36 <= 36 * t.len()) by (nonlinear_arith)
                    requires
                        i < t.len(),
                ;
                assert(t[i] == s[i]);
                assert((e + r).subrange(36 * i, 36 * i + 36) =~= e.subrange(36 * i, 36 * i + 36));
            } else {
                assert(36 * i == 36 * t.len());
                assert((e + r).subrange(36 * i, 36 * i + 36) =~= r);
            }
        }
    }
}

/// Decoding the encoding of a cell within its bounds, wherever it stands in
/// a byte string, gives the cell back, at level 0 (the encoding carries no
/// level), and the position just after it.
pub proof fn lemma_cell_encoding_roundtrip(v: CellView, pre: Seq<u8>, post: Seq<u8>)
    requires
        cell_view_wf(v),
        references_fit_u32(v.references),
    ensures
        cell_decode(pre + cell_encoding(v) + post, pre.len() as int) == Ok::<(CellView, int), CellError>(
            (CellView { level: 0, ..v }, (pre.len() + cell_encoding(v).len()) as int),
        ),
{
    reveal(cell_decode);
    let dl = v.data.len() as u32;
    let rl = v.references.len() as u32;
    let e = references_encoding(v.references);
    lemma_references_encoding(v.references);
    let b = pre + cell_encoding(v) + post;
    let pos = pre.len() as int;
    let p1 = pos + 4;
    let p2 = p1 + v.data.len();
    let p3 = p2 + 4;
    let p4 = p3 + 36 * v.references.len();
    assert(b =~= pre + u32_le(dl) + v.data + u32_le(rl) + e + seq![cell_type_byte(v.cell_type)]
        + v.merkle_hash + post);
    assert(b.subrange(pos, pos + 4) =~= u32_le(dl));
    lemma_read_u32_at_encoding(b, pos, dl);
    assert(b.subrange(p2, p2 + 4) =~= u32_le(rl));
    lemma_read_u32_at_encoding(b, p2, rl);
    assert(b.subrange(p1, p2) =~= v.data);
    assert(b.subrange(p3, p4) =~= e);
    assert(b[p4] == cell_type_byte(v.cell_type));
    assert(b.subrange(p4 + 1, p4 + 33) =~= v.merkle_hash);
    let refs = Seq::new(rl as nat, |i: int| reference_at(b, p3 + 36 * i));
    assert forall|i: int| 0 <= i < v.references.len() implies #[trigger] refs[i] =~= v.references[i] by {
        let q = p3 + 36 * i;
        assert(36 * i + 36 <= 36 * v.references.len()) by (nonlinear_arith)
            requires
                i < v.references.len(),
        ;
        let block = e.subrange(36 * i, 36 * i + 36);
        assert(b.subrange(q, q + 36) =~= block);
        assert(block == u32_le(v.references[i].cell_index as u32) + v.references[i].merkle_hash);
        assert(b.subrange(q, q + 4) =~= block.subrange(0, 4));
        assert(block.subrange(0, 4) =~= u32_le(v.references[i].cell_index as u32));
        lemma_read_u32_at_encoding(b, q, v.references[i].cell_index as u32);
        assert(b.subrange(q + 4, q + 36) =~= block.subrange(4, 36));
        assert(block.subrange(4, 36) =~= v.references[i].merkle_hash);
    }
    assert(refs =~= v.references);
}

/// A cell of a bag of cells.
#[derive(Debug)]
pub struct Cell {
    data: Vec<u8>,
    references: Vec<CellReference>,
    cell_type: CellType,
    merkle_hash: [u8; 32],
    level: u8,
}

impl View for Cell {
    type V = CellView;

    closed spec fn view(&self) -> CellView {
        CellView {
            data: self.data@,
            references: self.references@.map_values(|r: CellReference| r@),
            cell_type: self.cell_type,
            merkle_hash: self.merkle_hash@,
            level: self.level,
        }
    }
}

impl Cell {
    #[verifier::type_invariant]
    closed spec fn inv(&self) -> bool {
        self.data.len() <= MAX_BYTES && self.references.len() <= MAX_REFERENCES
    }

    proof fn lemma_view_wf(&self)
        requires
            self.inv(),
        ensures
            cell_view_wf(self@),
    {
    }

    /// Creates a cell with the given data and type, no references, a zero
    /// Merkle hash and level 0; `DataTooLarge` when the data exceed `MAX_BYTES`.
    pub fn new(data: Vec<u8>, cell_type: CellType) -> (r: Result<Cell, CellError>)
        ensures
            data@.len() > MAX_BYTES ==> r == Err::<Cell, CellError>(CellError::DataTooLarge),
            data@.len() <= MAX_BYTES ==> (r matches Ok(c) && c@ == (CellView {
                data: data@,
                references: Seq::empty(),
                cell_type,
                merkle_hash: Seq::new(32, |i: int| 0u8),
                level: 0,
            })),
    {
        if data.len() > MAX_BYTES {
            return Err(CellError::DataTooLarge);
        }
        let c = Cell { data, references: Vec::new(), cell_type, merkle_hash: [0u8; 32], level: 0 };
        assert(c@.references =~= Seq::<ReferenceView>::empty());
        assert(c@.merkle_hash =~= Seq::new(32, |i: int| 0u8));
        Ok(c)
    }

    /// Appends a reference; `TooManyReferences`, leaving the cell unchanged,
    /// when it already holds `MAX_REFERENCES`.
    pub fn add_reference(&mut self, reference: CellReference) -> (r: Result<(), CellError>)
        ensures
            old(self)@.references.len() >= MAX_REFERENCES ==> r == Err::<(), CellError>(
                CellError::TooManyReferences,
            ) && final(self)@ == old(self)@,
            old(self)@.references.len() < MAX_REFERENCES ==> r is Ok && final(self)@ == (CellView {
                references: old(self)@.references.push(reference@),
                ..old(self)@
            }),
    {
        proof {
            use_type_invariant(&*self);
        }
        if self.references.len() >= MAX_REFERENCES {
            return Err(CellError::TooManyReferences);
        }
        let mut refs = Vec::new();
        std::mem::swap(&mut refs, &mut self.references);
        refs.push(reference);
        self.references = refs;
        assert(self@.references =~= old(self)@.references.push(reference@));
        Ok(())
    }

    /// The cell's data.
    pub fn data(&self) -> (r: &Vec<u8>)
        ensures
            r@ == self@.data,
            r@.len() <= MAX_BYTES,
    {
        proof {
            use_type_invariant(self);
        }
        &self.data
    }

    /// The cell's references.
    pub fn references(&self) -> (r: &Vec<CellReference>)
        ensures
            r@.map_values(|x: CellReference| x@) == self@.references,
            r@.len() <= MAX_REFERENCES,
    {
        proof {
            use_type_invariant(self);
        }
        &self.references
    }

    /// The cell's type.
    pub fn cell_type(&self) -> (r: CellType)
        ensures
            r == self@.cell_type,
    {
        self.cell_type
    }

    /// The cell's stored Merkle hash.
    pub fn merkle_hash(&self) -> (r: [u8; 32])
        ensures
            r@ == self@.merkle_hash,
    {
        self.merkle_hash
    }

    /// The cell's level.
    pub fn level(&self) -> (r: u8)
        ensures
            r == self@.level,
    {
        self.level
    }

    /// Sets the cell's level.
    pub fn set_level(&mut self, level: u8)
        ensures
            final(self)@ == (CellView { level, ..old(self)@ }),
    {
        proof {
            use_type_invariant(&*self);
        }
        self.level = level;
    }

    /// The number of data bits.
    pub fn bit_length(&self) -> (r: usize)
        ensures
            r == self@.data.len() * 8,
    {
        proof {
            use_type_invariant(self);
        }
        self.data.len() * 8
    }

    /// Replaces the stored Merkle hash.
    pub fn set_merkle_hash(&mut self, merkle_hash: [u8; 32])
        ensures
            final(self)@ == (CellView { merkle_hash: merkle_hash@, ..old(self)@ }),
    {
        proof {
            use_type_invariant(&*self);
        }
        self.merkle_hash = merkle_hash;
    }

    /// The hashes of the references, one after the other.
    pub fn reference_hash_bytes(&self, out: &mut Vec<u8>)
        ensures
            final(out)@ == old(out)@ + reference_hashes(self@.references),
    {
        let mut i: usize = 0;
        while i < self.references.len()
            invariant
                i <= self.references@.len(),
                out@ == old(out)@ + reference_hashes(self@.references.take(i as int)),
            decreases self.references@.len() - i,
        {
            let h = self.references[i].merkle_hash;
            push_all(out, &h);
            proof {
                let t = self@.references.take(i + 1);
                assert(t.drop_last() =~= self@.references.take(i as int));
                assert(t.last() == self.references@[i as int]@);
            }
            i = i + 1;
        }
        assert(self@.references.take(self.references@.len() as int) =~= self@.references);
    }

    /// Computes the Merkle hash (SHA-256 of the type byte, the data and the
    /// references' hashes) and stores it.
    pub fn calculate_merkle_hash(&mut self) -> (r: Result<(), CellError>)
        ensures
            r is Ok,
            final(self)@ == (CellView {
                merkle_hash: sha256_digest(merkle_hash_input(old(self)@)),
                ..old(self)@
            }),
    {
        proof {
            use_type_invariant(&*self);
        }
        let mut input: Vec<u8> = Vec::new();
        input.push(self.cell_type.to_u8());
        push_all(&mut input, self.data.as_slice());
        self.reference_hash_bytes(&mut input);
        assert(input@ =~= merkle_hash_input(self@));
        self.merkle_hash = sha256(input.as_slice());
        Ok(())
    }

    /// Whether the stored Merkle hash is the one the cell's content gives.
    pub fn verify_merkle_hash(&self) -> (r: bool)
        ensures
            r == (self@.merkle_hash == sha256_digest(merkle_hash_input(self@))),
    {
        let mut input: Vec<u8> = Vec::new();
        input.push(self.cell_type.to_u8());
        push_all(&mut input, self.data.as_slice());
        self.reference_hash_bytes(&mut input);
        assert(input@ =~= merkle_hash_input(self@));
        let h = sha256(input.as_slice());
        let mut i: usize = 0;
        while i < 32
            invariant
                i <= 32,
                h@ == sha256_digest(merkle_hash_input(self@)),
                forall|j: int| 0 <= j < i ==> h@[j] == self.merkle_hash@[j],
            decreases 32 - i,
        {
            if h[i] != self.merkle_hash[i] {
                return false;
            }
            i = i + 1;
        }
        assert(h@ =~= self.merkle_hash@);
        true
    }

    /// The content hash: SHA-256 of the data and the references' hashes.
    pub fn calculate_hash(&self) -> (r: [u8; 32])
        ensures
            r@ == sha256_digest(content_hash_input(self@)),
    {
        let mut input: Vec<u8> = Vec::new();
        push_all(&mut input, self.data.as_slice());
        self.reference_hash_bytes(&mut input);
        assert(input@ =~= content_hash_input(self@));
        sha256(input.as_slice())
    }

    /// A copy of this cell.
    pub fn duplicate(&self) -> (r: Cell)
        ensures
            r@ == self@,
    {
        proof {
            use_type_invariant(self);
        }
        let mut data: Vec<u8> = Vec::new();
        push_all(&mut data, self.data.as_slice());
        let mut references: Vec<CellReference> = Vec::new();
        let mut i: usize = 0;
        while i < self.references.len()
            invariant
                i <= self.references@.len(),
                references@ == self.references@.take(i as int),
            decreases self.references@.len() - i,
        {
            references.push(self.references[i]);
            i = i + 1;
            assert(references@ =~= self.references@.take(i as int));
        }
        assert(references@ =~= self.references@);
        assert(data@ =~= self.data@);
        Cell { data, references, cell_type: self.cell_type, merkle_hash: self.merkle_hash, level: self.level }
    }
}


impl CellData for Cell {
    /// The cell's data.
    fn get_data(&self) -> (r: &Vec<u8>)
        ensures
            r@ == self@.data,
    {
        &self.data
    }

    /// The cell's references.
    fn get_references(&self) -> (r: &Vec<CellReference>)
        ensures
            r@.map_values(|x: CellReference| x@) == self@.references,
    {
        &self.references
    }

    /// The cell's type.
    fn get_cell_type(&self) -> (r: &CellType)
        ensures
            *r == self@.cell_type,
    {
        &self.cell_type
    }

    /// The cell's Merkle hash.
    fn get_merkle_hash(&self) -> (r: &[u8; 32])
        ensures
            r@ == self@.merkle_hash,
    {
        &self.merkle_hash
    }
}

/// The 32 bytes at `p`.
pub fn read_hash(bytes: &[u8], p: usize) -> (h: [u8; 32])
    requires
        p + 32 <= bytes.len(),
    ensures
        h@ == bytes@.subrange(p as int, p + 32),
{
    let mut h = [0u8; 32];
    let mut j: usize = 0;
    while j < 32
        invariant
            j <= 32,
            p + 32 <= bytes.len(),
            forall|k: int| 0 <= k < j ==> h@[k] == bytes@[p + k],
        decreases 32 - j,
    {
        h[j] = bytes[p + j];
        j = j + 1;
    }
    assert(h@ =~= bytes@.subrange(p as int, p + 32));
    h
}

/// The reference encoded at `p`.
pub fn read_reference(bytes: &[u8], p: usize) -> (r: CellReference)
    requires
        p + 36 <= bytes.len(),
    ensures
        r@ == reference_at(bytes@, p as int),
{
    let idx = read_u32_le(bytes, p).unwrap();
    let h = read_hash(bytes, p + 4);
    CellReference { cell_index: idx as usize, merkle_hash: h }
}

/// Appends the encoding of a reference.
pub fn write_reference(r: &CellReference, writer: &mut Vec<u8>)
    ensures
        final(writer)@ == old(writer)@ + reference_encoding(r@),
{
    push_u32_le(writer, r.cell_index as u32);
    push_all(writer, &r.merkle_hash);
    assert(writer@ =~= old(writer)@ + reference_encoding(r@));
}

impl Cell {
    /// Appends the encoding of this cell (see `cell_encoding`).
    pub fn serialize(&self, writer: &mut Vec<u8>)
        ensures
            final(writer)@ == old(writer)@ + cell_encoding(self@),
            cell_view_wf(self@),
    {
        proof {
            use_type_invariant(self);
            self.lemma_view_wf();
        }
        push_u32_le(writer, self.data.len() as u32);
        push_all(writer, self.data.as_slice());
        push_u32_le(writer, self.references.len() as u32);
        let ghost start = writer@;
        let mut i: usize = 0;
        while i < self.references.len()
            invariant
                i <= self.references@.len(),
                writer@ == start + references_encoding(self@.references.take(i as int)),
            decreases self.references@.len() - i,
        {
            write_reference(&self.references[i], writer);
            proof {
                let t = self@.references.take(i + 1);
                assert(t.drop_last() =~= self@.references.take(i as int));
                assert(t.last() == self.references@[i as int]@);
            }
            i = i + 1;
        }
        assert(self@.references.take(self.references@.len() as int) =~= self@.references);
        writer.push(self.cell_type.to_u8());
        push_all(writer, &self.merkle_hash);
        assert(writer@ =~= old(writer)@ + cell_encoding(self@));
    }

    /// Decodes a cell at `pos` (see `cell_decode`), giving the cell and the
    /// position after it.
    pub fn deserialize(bytes: &[u8], pos: usize) -> (r: Result<(Cell, usize), CellError>)
        ensures
            match cell_decode(bytes@, pos as int) {
                Ok((v, end)) => r matches Ok((c, e)) && c@ == v && e == end,
                Err(err) => r == Err::<(Cell, usize), CellError>(err),
            },
    {
        reveal(cell_decode);
        let n = bytes.len();
        let dl = match read_u32_le(bytes, pos) {
            None => return Err(CellError::UnexpectedEof),
            Some(x) => x,
        };
        let p1 = pos + 4;
        let dlu = dl as usize;
        if dlu > bytes.len() - p1 {
            return Err(CellError::UnexpectedEof);
        }
        let p2 = p1 + dlu;
        let rl = match read_u32_le(bytes, p2) {
            None => return Err(CellError::UnexpectedEof),
            Some(x) => x,
        };
        let p3 = p2 + 4;
        let rlu = rl as usize;
        let room = bytes.len() - p3;
        if rlu > room / 36 {
            assert(36 * rlu > room) by (nonlinear_arith)
                requires
                    rlu > room / 36,
            ;
            return Err(CellError::UnexpectedEof);
        }
        assert(36 * rlu <= room) by (nonlinear_arith)
            requires
                rlu <= room / 36,
        ;
        let p4 = p3 + 36 * rlu;
        if p4 >= bytes.len() {
            return Err(CellError::UnexpectedEof);
        }
        let cell_type = match CellType::from_u8(bytes[p4]) {
            Err(_) => return Err(CellError::InvalidData),
            Ok(t) => t,
        };
        if bytes.len() - p4 < 33 {
            return Err(CellError::UnexpectedEof);
        }
        if dlu > MAX_BYTES || rlu > MAX_REFERENCES {
            return Err(CellError::InvalidData);
        }
        let mut data: Vec<u8> = Vec::new();
        let mut j: usize = p1;
        while j < p2
            invariant
                p1 <= j <= p2,
                p2 <= bytes@.len(),
                data@ == bytes@.subrange(p1 as int, j as int),
            decreases p2 - j,
        {
            data.push(bytes[j]);
            j = j + 1;
            assert(data@ =~= bytes@.subrange(p1 as int, j as int));
        }
        let mut references: Vec<CellReference> = Vec::new();
        let mut i: usize = 0;
        while i < rlu
            invariant
                i <= rlu,
                rlu <= MAX_REFERENCES,
                p3 + 36 * rlu < bytes.len(),
                references@.len() == i,
                forall|k: int| 0 <= k < i ==> #[trigger] references@[k]@ == reference_at(
                    bytes@,
                    p3 + 36 * k,
                ),
            decreases rlu - i,
        {
            assert(p3 + 36 * i + 36 <= p3 + 36 * rlu) by (nonlinear_arith)
                requires
                    i < rlu,
            ;
            let r = read_reference(bytes, p3 + 36 * i);
            references.push(r);
            i = i + 1;
        }
        let merkle_hash = read_hash(bytes, p4 + 1);
        let c = Cell { data, references, cell_type, merkle_hash, level: 0 };
        assert(c@.references =~= Seq::new(rl as nat, |k: int| reference_at(bytes@, p3 + 36 * k)));
        Ok((c, p4 + 33))
    }
}

} // verus!
