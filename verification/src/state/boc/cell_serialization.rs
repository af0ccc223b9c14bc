//! Binary serialization of cells and references, and a bag of cells whose
//! cells are found by their content digest.

use vstd::prelude::*;
use crate::bytes::{
    bytes32_eq,
    push_all,
    push_u32_le,
    read_u32_at,
    read_u32_le,
    u32_le,
};
use crate::error::CellError;
use crate::state::boc::builder::{content_digest, first_with_digest};
use crate::state::boc::cell::{
    Cell,
    CellView,
    MAX_BYTES,
    MAX_REFERENCES,
    cell_decode,
    cell_encoding,
    cell_view_wf,
    lemma_reference_hashes,
    read_hash,
    read_reference,
    reference_hashes,
    reference_at,
    reference_encoding,
    write_reference,
};
use crate::types::ovp_types::{
    BocView,
    CellReference,
    CellType,
    ReferenceView,
    cell_type_byte,
    cell_type_from_byte,
};

verus! {

/// Values that append their binary encoding to a byte vector.
pub trait Serializable {
    fn serialize(&self, writer: &mut Vec<u8>);
}

/// Values that decode from bytes at a position, giving the position after
/// them.
pub trait Deserializable: Sized {
    fn deserialize(bytes: &[u8], pos: usize) -> Result<(Self, usize), CellError>;
}

impl Serializable for CellReference {
    /// Appends the index as a little-endian `u32`, then the hash.
    fn serialize(&self, writer: &mut Vec<u8>)
        ensures
            final(writer)@ == old(writer)@ + reference_encoding(self@),
    {
        write_reference(self, writer);
    }
}

impl Deserializable for CellReference {
    /// Reads the 36 bytes of a reference at `pos`; `UnexpectedEof` when fewer
    /// remain.
    fn deserialize(bytes: &[u8], pos: usize) -> (r: Result<(CellReference, usize), CellError>)
        ensures
            pos + 36 <= bytes@.len() ==> (r matches Ok((c, e)) && c@ == reference_at(bytes@, pos as int)
                && e == pos + 36),
            pos + 36 > bytes@.len() ==> r == Err::<(CellReference, usize), CellError>(
                CellError::UnexpectedEof,
            ),
    {
        if pos > bytes.len() || bytes.len() - pos < 36 {
            return Err(CellError::UnexpectedEof);
        }
        Ok((read_reference(bytes, pos), pos + 36))
    }
}

impl Serializable for Cell {
    /// Appends the encoding of the cell (see `cell_encoding`).
    fn serialize(&self, writer: &mut Vec<u8>)
        ensures
            final(writer)@ == old(writer)@ + cell_encoding(self@),
    {
        Cell::serialize(self, writer);
    }
}

impl Deserializable for Cell {
    /// Decodes a cell at `pos` (see `cell_decode`).
    fn deserialize(bytes: &[u8], pos: usize) -> (r: Result<(Cell, usize), CellError>)
        ensures
            match cell_decode(bytes@, pos as int) {
                Ok((v, end)) => r matches Ok((c, e)) && c@ == v && e == end,
                Err(err) => r == Err::<(Cell, usize), CellError>(err),
            },
    {
        Cell::deserialize(bytes, pos)
    }
}

/// A bag of cells whose cells are found by their content digest.
pub struct BOC {
    cells: Vec<Cell>,
    roots: Vec<usize>,
}

impl View for BOC {
    type V = BocView;

    closed spec fn view(&self) -> BocView {
        BocView { cells: self.cells@.map_values(|c: Cell| c@), roots: self.roots@ }
    }
}

impl BOC {
    /// A bag with the given cells and roots.
    pub fn new(cells: Vec<Cell>, roots: Vec<usize>) -> (r: BOC)
        ensures
            r@.cells == cells@.map_values(|c: Cell| c@),
            r@.roots == roots@,
    {
        BOC { cells, roots }
    }

    /// The cells.
    pub fn cells(&self) -> (r: &Vec<Cell>)
        ensures
            r@.map_values(|c: Cell| c@) == self@.cells,
    {
        &self.cells
    }

    /// The root indices.
    pub fn roots(&self) -> (r: &Vec<usize>)
        ensures
            r@ == self@.roots,
    {
        &self.roots
    }

    /// Finds the first cell whose content digest is `hash`.
    fn find(&self, hash: &[u8; 32]) -> (r: Option<usize>)
        ensures
            match first_with_digest(self@.cells, hash@, 0) {
                Some(i) => 0 <= i < self@.cells.len() && r == Some(i as usize),
                None => r is None,
            },
            r matches Some(j) ==> first_with_digest(self@.cells, hash@, 0) == Some(j as int),
    {
        proof {
            lemma_first_with_digest_shape(self@.cells, hash@, 0);
        }
        let mut i: usize = 0;
        while i < self.cells.len()
            invariant
                i <= self.cells@.len(),
                first_with_digest(self@.cells, hash@, 0) == first_with_digest(
                    self@.cells,
                    hash@,
                    i as int,
                ),
            decreases self.cells@.len() - i,
        {
            assert(self@.cells[i as int] == self.cells@[i as int]@);
            let h = self.cells[i].calculate_hash();
            if bytes32_eq(&h, hash) {
                proof {
                    lemma_first_with_digest_shape(self@.cells, hash@, i as int);
                }
                return Some(i);
            }
            i = i + 1;
        }
        None
    }

    /// Stores a cell under its content digest, which it gives back: a cell
    /// already stored under that digest is replaced, otherwise the cell is
    /// appended.
    pub fn add_cell(&mut self, cell: Cell) -> (r: [u8; 32])
        ensures
            r@ == content_digest(cell@),
            final(self)@.roots == old(self)@.roots,
            match first_with_digest(old(self)@.cells, r@, 0) {
                Some(i) => final(self)@.cells == old(self)@.cells.update(i, cell@),
                None => final(self)@.cells == old(self)@.cells.push(cell@),
            },
    {
        let hash = cell.calculate_hash();
        match self.find(&hash) {
            Some(i) => {
                self.cells.set(i, cell);
                assert(self@.cells =~= old(self)@.cells.update(i as int, cell@));
            },
            None => {
                self.cells.push(cell);
                assert(self@.cells =~= old(self)@.cells.push(cell@));
            },
        }
        hash
    }

    /// Marks as a root the first cell stored under `hash`; does nothing when
    /// no cell is.
    pub fn add_root(&mut self, hash: [u8; 32])
        ensures
            final(self)@.cells == old(self)@.cells,
            match first_with_digest(old(self)@.cells, hash@, 0) {
                Some(i) => final(self)@.roots == old(self)@.roots.push(i as usize),
                None => final(self)@.roots == old(self)@.roots,
            },
    {
        match self.find(&hash) {
            Some(i) => {
                self.roots.push(i);
            },
            None => {},
        }
    }

    /// The first cell stored under `hash`, if any.
    pub fn get_cell(&self, hash: &[u8; 32]) -> (r: Option<&Cell>)
        ensures
            match first_with_digest(self@.cells, hash@, 0) {
                Some(i) => r matches Some(c) && c@ == self@.cells[i],
                None => r is None,
            },
    {
        match self.find(hash) {
            Some(i) => {
                let c = &self.cells[i];
                assert(first_with_digest(self@.cells, hash@, 0) == Some(i as int));
                assert(c@ == self@.cells[i as int]);
                Some(c)
            },
            None => None,
        }
    }
}

/// The cells after storing `v` under its content digest: the first cell with
/// that digest is replaced, or `v` is appended.
pub open spec fn stored_by_digest(cells: Seq<CellView>, v: CellView) -> Seq<CellView> {
    match first_with_digest(cells, content_digest(v), 0) {
        Some(i) => cells.update(i, v),
        None => cells.push(v),
    }
}

/// After a cell is stored under its digest, looking the digest up finds that
/// cell; lookups of other digests find what they found before.
pub proof fn lemma_get_after_add(cells: Seq<CellView>, v: CellView, h: Seq<u8>)
    ensures
        first_with_digest(stored_by_digest(cells, v), content_digest(v), 0) matches Some(j)
            && stored_by_digest(cells, v)[j] == v,
        h != content_digest(v) ==> first_with_digest(stored_by_digest(cells, v), h, 0)
            == first_with_digest(cells, h, 0),
{
    let d = content_digest(v);
    let t = stored_by_digest(cells, v);
    lemma_first_with_digest_shape(cells, d, 0);
    lemma_first_with_digest_shape(cells, h, 0);
    lemma_first_with_digest_shape(t, d, 0);
    lemma_first_with_digest_shape(t, h, 0);
    match first_with_digest(cells, d, 0) {
        Some(i) => {
            assert(t[i] == v);
            assert(forall|m: int| 0 <= m < t.len() && m != i ==> #[trigger] t[m] == cells[m]);
            match first_with_digest(t, d, 0) {
                Some(j) => {
                    if j < i {
                        assert(t[j] == cells[j]);
                    }
                    if j > i {
                        assert(content_digest(t[i]) == d);
                    }
                },
                None => {
                    assert(content_digest(t[i]) == d);
                },
            }
            if h != d {
                match first_with_digest(cells, h, 0) {
                    Some(j) => {
                        assert(t[j] == cells[j]);
                        match first_with_digest(t, h, 0) {
                            Some(q) => {
                                assert(t[q] == cells[q]);
                            },
                            None => {},
                        }
                    },
                    None => {
                        match first_with_digest(t, h, 0) {
                            Some(q) => {
                                assert(t[q] == cells[q]);
                            },
                            None => {},
                        }
                    },
                }
            }
        },
        None => {
            assert(forall|m: int| 0 <= m < cells.len() ==> #[trigger] t[m] == cells[m]);
            assert(t[cells.len() as int] == v);
            match first_with_digest(t, d, 0) {
                Some(j) => {
                    if j < cells.len() {
                        assert(t[j] == cells[j]);
                    }
                },
                None => {
                    assert(content_digest(t[cells.len() as int]) == d);
                },
            }
            if h != d {
                match first_with_digest(cells, h, 0) {
                    Some(j) => {
                        assert(t[j] == cells[j]);
                        match first_with_digest(t, h, 0) {
                            Some(q) => {
                                if q < cells.len() {
                                    assert(t[q] == cells[q]);
                                }
                            },
                            None => {},
                        }
                    },
                    None => {
                        match first_with_digest(t, h, 0) {
                            Some(q) => {
                                if q < cells.len() {
                                    assert(t[q] == cells[q]);
                                }
                            },
                            None => {},
                        }
                    },
                }
            }
        },
    }
}

/// A first match lies within the cells and has the digest; no cell before
/// it, from `k` on, does; with no match, no cell from `k` on has it.
pub proof fn lemma_first_with_digest_shape(cells: Seq<CellView>, h: Seq<u8>, k: int)
    requires
        0 <= k,
    ensures
        first_with_digest(cells, h, k) matches Some(i) ==> k <= i < cells.len() && content_digest(
            cells[i],
        ) == h && forall|m: int| k <= m < i ==> content_digest(#[trigger] cells[m]) != h,
        first_with_digest(cells, h, k) is None ==> forall|m: int|
            k <= m < cells.len() ==> content_digest(#[trigger] cells[m]) != h,
    decreases cells.len() - k,
{
    if k < cells.len() {
        lemma_first_with_digest_shape(cells, h, k + 1);
    }
}

/// The compact encoding of a cell: the level byte, the type byte, the data
/// length in one byte, the data, the reference count in one byte, then the
/// 32-byte hash of each reference. Neither the Merkle hash nor the indices of
/// the references are part of it.
pub open spec fn compact_cell_encoding(v: CellView) -> Seq<u8> {
    seq![v.level, cell_type_byte(v.cell_type), v.data.len() as u8] + v.data + seq![
        v.references.len() as u8,
    ] + reference_hashes(v.references)
}

/// The references with their hashes kept and their indices set to 0, as
/// the compact encoding gives them back.
pub open spec fn unindexed(refs: Seq<ReferenceView>) -> Seq<ReferenceView> {
    refs.map_values(|r: ReferenceView| ReferenceView { cell_index: 0, merkle_hash: r.merkle_hash })
}

/// The reference that the 32 bytes at `p` give in the compact encoding.
pub open spec fn compact_reference_at(b: Seq<u8>, p: int) -> ReferenceView {
    ReferenceView { cell_index: 0, merkle_hash: b.subrange(p, p + 32) }
}

/// The compact encodings of the cells that the roots name, in root order; a
/// root that names no cell adds nothing.
pub open spec fn compact_roots_encoding(cells: Seq<CellView>, roots: Seq<usize>) -> Seq<u8>
    decreases roots.len(),
{
    if roots.len() == 0 {
        Seq::empty()
    } else {
        compact_roots_encoding(cells, roots.drop_last()) + if roots.last() < cells.len() {
            compact_cell_encoding(cells[roots.last() as int])
        } else {
            Seq::empty()
        }
    }
}

/// The compact encoding of a bag: the root count and the cell count (each a
/// little-endian `u32`), then the cells that the roots name.
pub open spec fn compact_boc_encoding(b: BocView) -> Seq<u8> {
    u32_le(b.roots.len() as u32) + u32_le(b.cells.len() as u32) + compact_roots_encoding(
        b.cells,
        b.roots,
    )
}

/// Decoding of the compact encoding of a cell at `pos`: the cell, with the
/// level read, a zero Merkle hash and references of index 0, and the
/// position after it. Running out of bytes gives `UnexpectedEof`; once all
/// fields are read, an unknown type byte gives `InvalidData`, more data than
/// a cell holds `DataTooLarge`, and more references than a cell holds
/// `TooManyReferences`.
#[verifier::opaque]
pub open spec fn compact_cell_decode(b: Seq<u8>, pos: int) -> Result<(CellView, int), CellError> {
    if pos < 0 || pos + 3 > b.len() {
        Err(CellError::UnexpectedEof)
    } else {
        let n = b[pos + 2] as int;
        let p1 = pos + 3;
        let p2 = p1 + n;
        if p2 + 1 > b.len() {
            Err(CellError::UnexpectedEof)
        } else {
            let k = b[p2] as int;
            let p3 = p2 + 1;
            let p4 = p3 + 32 * k;
            if p4 > b.len() {
                Err(CellError::UnexpectedEof)
            } else if cell_type_from_byte(b[pos + 1]) is None {
                Err(CellError::InvalidData)
            } else if n > MAX_BYTES {
                Err(CellError::DataTooLarge)
            } else if k > MAX_REFERENCES {
                Err(CellError::TooManyReferences)
            } else {
                Ok(
                    (
                        CellView {
                            data: b.subrange(p1, p2),
                            references: Seq::new(k as nat, |i: int| compact_reference_at(b, p3 + 32 * i)),
                            cell_type: cell_type_from_byte(b[pos + 1]).unwrap(),
                            merkle_hash: Seq::new(32, |i: int| 0u8),
                            level: b[pos],
                        },
                        p4,
                    ),
                )
            }
        }
    }
}

/// Decoding the compact encoding of a cell within its bounds, wherever it
/// stands in a byte string, gives the cell back with its level, a zero
/// Merkle hash and its references' hashes (at index 0), and the position
/// just after it.
pub proof fn lemma_compact_cell_roundtrip(v: CellView, pre: Seq<u8>, post: Seq<u8>)
    requires
        cell_view_wf(v),
    ensures
        compact_cell_decode(pre + compact_cell_encoding(v) + post, pre.len() as int) == Ok::<
            (CellView, int),
            CellError,
        >(
            (
                CellView {
                    merkle_hash: Seq::new(32, |i: int| 0u8),
                    references: unindexed(v.references),
                    ..v
                },
                (pre.len() + compact_cell_encoding(v).len()) as int,
            ),
        ),
{
    reveal(compact_cell_decode);
    lemma_reference_hashes(v.references);
    let e = reference_hashes(v.references);
    let b = pre + compact_cell_encoding(v) + post;
    let pos = pre.len() as int;
    let n = v.data.len() as int;
    let k = v.references.len() as int;
    let p1 = pos + 3;
    let p2 = p1 + n;
    let p3 = p2 + 1;
    let p4 = p3 + 32 * k;
    assert(b =~= pre + seq![v.level, cell_type_byte(v.cell_type), v.data.len() as u8] + v.data
        + seq![v.references.len() as u8] + e + post);
    assert(b[pos] == v.level);
    assert(b[pos + 1] == cell_type_byte(v.cell_type));
    assert(b[pos + 2] == n);
    assert(b[p2] == k);
    assert(b.subrange(p1, p2) =~= v.data);
    assert(b.subrange(p3, p4) =~= e);
    let refs = Seq::new(k as nat, |i: int| compact_reference_at(b, p3 + 32 * i));
    assert forall|i: int| 0 <= i < k implies #[trigger] refs[i] =~= unindexed(v.references)[i] by {
        let q = p3 + 32 * i;
        assert(32 * i + 32 <= 32 * k) by (nonlinear_arith)
            requires
                i < k,
        ;
        assert(b.subrange(q, q + 32) =~= e.subrange(32 * i, 32 * i + 32));
    }
    assert(refs =~= unindexed(v.references));
}

/// Reading and writing of bags and cells in the compact encoding.
pub trait BOCSerializer {
    fn serialize_boc(boc: &BOC) -> Result<Vec<u8>, CellError>;

    fn serialize_cell(cell: &Cell) -> Result<Vec<u8>, CellError>;

    fn deserialize_cell(bytes: &[u8], pos: usize) -> Result<(Cell, usize), CellError>;

    fn read_u8(bytes: &[u8], pos: usize) -> Result<u8, CellError>;

    fn read_u32(bytes: &[u8], pos: usize) -> Result<u32, CellError>;
}

impl BOCSerializer for BOC {
    /// The compact encoding of the bag (see `compact_boc_encoding`).
    fn serialize_boc(boc: &BOC) -> (r: Result<Vec<u8>, CellError>)
        ensures
            r matches Ok(bytes) && bytes@ == compact_boc_encoding(boc@),
    {
        let mut buffer: Vec<u8> = Vec::new();
        push_u32_le(&mut buffer, boc.roots.len() as u32);
        push_u32_le(&mut buffer, boc.cells.len() as u32);
        let ghost head = buffer@;
        let mut i: usize = 0;
        while i < boc.roots.len()
            invariant
                i <= boc.roots@.len(),
                head == u32_le(boc@.roots.len() as u32) + u32_le(boc@.cells.len() as u32),
                buffer@ == head + compact_roots_encoding(boc@.cells, boc@.roots.take(i as int)),
            decreases boc.roots@.len() - i,
        {
            let root = boc.roots[i];
            proof {
                let t = boc@.roots.take(i + 1);
                assert(t.drop_last() =~= boc@.roots.take(i as int));
                assert(t.last() == root);
            }
            if root < boc.cells.len() {
                assert(boc@.cells[root as int] == boc.cells@[root as int]@);
                let encoded = Self::serialize_cell(&boc.cells[root]);
                match encoded {
                    Ok(bytes) => {
                        push_all(&mut buffer, bytes.as_slice());
                    },
                    Err(_) => {},
                }
            } else {
                assert(buffer@ =~= buffer@ + Seq::<u8>::empty());
            }
            i = i + 1;
        }
        assert(boc@.roots.take(boc.roots@.len() as int) =~= boc@.roots);
        Ok(buffer)
    }

    /// The compact encoding of the cell (see `compact_cell_encoding`).
    fn serialize_cell(cell: &Cell) -> (r: Result<Vec<u8>, CellError>)
        ensures
            r matches Ok(bytes) && bytes@ == compact_cell_encoding(cell@),
    {
        let mut cell_buffer: Vec<u8> = Vec::new();
        cell_buffer.push(cell.level());
        cell_buffer.push(cell.cell_type().to_u8());
        let data = cell.data();
        cell_buffer.push(data.len() as u8);
        push_all(&mut cell_buffer, data.as_slice());
        let references = cell.references();
        cell_buffer.push(references.len() as u8);
        cell.reference_hash_bytes(&mut cell_buffer);
        assert(cell_buffer@ =~= compact_cell_encoding(cell@));
        Ok(cell_buffer)
    }

    /// Decodes the compact encoding of a cell at `pos` (see
    /// `compact_cell_decode`).
    fn deserialize_cell(bytes: &[u8], pos: usize) -> (r: Result<(Cell, usize), CellError>)
        ensures
            match compact_cell_decode(bytes@, pos as int) {
                Ok((v, end)) => r matches Ok((c, e)) && c@ == v && e == end,
                Err(err) => r == Err::<(Cell, usize), CellError>(err),
            },
    {
        reveal(compact_cell_decode);
        if pos >= bytes.len() || bytes.len() - pos < 3 {
            return Err(CellError::UnexpectedEof);
        }
        let level = bytes[pos];
        let type_byte = bytes[pos + 1];
        let data_size = bytes[pos + 2];
        let p1 = pos + 3;
        let n = data_size as usize;
        if n >= bytes.len() - p1 {
            return Err(CellError::UnexpectedEof);
        }
        let p2 = p1 + n;
        let refs_count = bytes[p2] as usize;
        let p3 = p2 + 1;
        let room = bytes.len() - p3;
        if refs_count > room / 32 {
            assert(32 * refs_count > room) by (nonlinear_arith)
                requires
                    refs_count > room / 32,
            ;
            return Err(CellError::UnexpectedEof);
        }
        assert(32 * refs_count <= room) by (nonlinear_arith)
            requires
                refs_count <= room / 32,
        ;
        let p4 = p3 + 32 * refs_count;
        let cell_type = match CellType::from_u8(type_byte) {
            Err(_) => return Err(CellError::InvalidData),
            Ok(t) => t,
        };
        if n > MAX_BYTES {
            return Err(CellError::DataTooLarge);
        }
        if refs_count > MAX_REFERENCES {
            return Err(CellError::TooManyReferences);
        }
        let mut data: Vec<u8> = Vec::new();
        let mut j: usize = p1;
        while j < p2
            invariant
                p1 <= j <= p2,
                p2 <= bytes@.len(),
                data@ == bytes@.subrange(p1 as int, j as int),
            decreases p2 - j,
        {
            data.push(bytes[j]);
            j = j + 1;
            assert(data@ =~= bytes@.subrange(p1 as int, j as int));
        }
        let mut cell = match Cell::new(data, cell_type) {
            Ok(c) => c,
            Err(e) => return Err(e),
        };
        let ghost base = cell@;
        let mut i: usize = 0;
        while i < refs_count
            invariant
                i <= refs_count,
                refs_count <= MAX_REFERENCES,
                p4 == p3 + 32 * refs_count,
                p4 <= bytes@.len(),
                cell@.references.len() == i,
                cell@ == (CellView { references: cell@.references, ..base }),
                forall|k: int| 0 <= k < i ==> #[trigger] cell@.references[k] == compact_reference_at(
                    bytes@,
                    p3 + 32 * k,
                ),
            decreases refs_count - i,
        {
            assert(p3 + 32 * i + 32 <= p3 + 32 * refs_count) by (nonlinear_arith)
                requires
                    i < refs_count,
            ;
            let hash = read_hash(bytes, p3 + 32 * i);
            let added = cell.add_reference(CellReference { cell_index: 0, merkle_hash: hash });
            i = i + 1;
        }
        assert(cell@.references =~= Seq::new(
            refs_count as nat,
            |k: int| compact_reference_at(bytes@, p3 + 32 * k),
        ));
        cell.set_level(level);
        Ok((cell, p4))
    }

    /// The byte at `pos`; `UnexpectedEof` past the end.
    fn read_u8(bytes: &[u8], pos: usize) -> (r: Result<u8, CellError>)
        ensures
            pos < bytes@.len() ==> r == Ok::<u8, CellError>(bytes@[pos as int]),
            pos >= bytes@.len() ==> r == Err::<u8, CellError>(CellError::UnexpectedEof),
    {
        if pos < bytes.len() {
            Ok(bytes[pos])
        } else {
            Err(CellError::UnexpectedEof)
        }
    }

    /// The little-endian `u32` at `pos`; `UnexpectedEof` when fewer than
    /// four bytes remain.
    fn read_u32(bytes: &[u8], pos: usize) -> (r: Result<u32, CellError>)
        ensures
            match read_u32_at(bytes@, pos as int) {
                Some(x) => r == Ok::<u32, CellError>(x),
                None => r == Err::<u32, CellError>(CellError::UnexpectedEof),
            },
    {
        match read_u32_le(bytes, pos) {
            Some(x) => Ok(x),
            None => Err(CellError::UnexpectedEof),
        }
    }
}

} // verus!
