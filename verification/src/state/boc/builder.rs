//! A builder that collects cells, merging cells of equal content, and turns
//! them into a bag of cells or its binary encoding.

use vstd::prelude::*;
use crate::bytes::{bytes32_eq, push_u32_le, u32_le};
use crate::crypto::sha256_digest;
use crate::error::CellError;
use crate::state::boc::cell::{
    Cell,
    CellView,
    cell_encoding,
    content_hash_input,
    merkle_hash_input,
};
use crate::state::boc::verifiy_boc::total_bits;
use crate::types::ovp_types::{BOC, BocView, CellReference};

verus! {

/// The content digest of a cell.
pub open spec fn content_digest(c: CellView) -> Seq<u8> {
    sha256_digest(content_hash_input(c))
}

/// The first of the cells whose content digest is `h`.
pub open spec fn first_with_digest(cells: Seq<CellView>, h: Seq<u8>, k: int) -> Option<int>
    decreases cells.len() - k,
{
    if k < 0 || k >= cells.len() {
        None
    } else if content_digest(cells[k]) == h {
        Some(k)
    } else {
        first_with_digest(cells, h, k + 1)
    }
}

/// The first root, from the `k`th on, that names no cell of `n`.
pub open spec fn first_invalid_root(roots: Seq<usize>, n: int, k: int) -> Option<usize>
    decreases roots.len() - k,
{
    if k < 0 || k >= roots.len() {
        None
    } else if roots[k] >= n {
        Some(roots[k])
    } else {
        first_invalid_root(roots, n, k + 1)
    }
}

/// Whether some reference of some cell names no cell of the list.
pub open spec fn has_dangling_reference(cells: Seq<CellView>) -> bool {
    exists|i: int, k: int|
        0 <= i < cells.len() && 0 <= k < cells[i].references.len()
            && #[trigger] cells[i].references[k].cell_index >= cells.len()
}

/// The outcome of building a bag with the given roots from the collected
/// cells: `InvalidData` for a root that names no cell, then `DataTooLarge`
/// when the data bits exceed the limit, then `InvalidData` for a reference
/// that names no cell.
pub open spec fn build_result(cells: Seq<CellView>, max_bits_size: int, roots: Seq<usize>) -> Result<
    BocView,
    CellError,
> {
    if first_invalid_root(roots, cells.len() as int, 0) is Some {
        Err(CellError::InvalidData)
    } else if total_bits(cells, cells.len() as int) > max_bits_size {
        Err(CellError::DataTooLarge)
    } else if has_dangling_reference(cells) {
        Err(CellError::InvalidData)
    } else {
        Ok(BocView { cells, roots })
    }
}

/// The encodings of cells, one after the other.
pub open spec fn cells_encoding(cells: Seq<CellView>) -> Seq<u8>
    decreases cells.len(),
{
    if cells.len() == 0 {
        Seq::empty()
    } else {
        cells_encoding(cells.drop_last()) + cell_encoding(cells.last())
    }
}

/// The root indices, each as a little-endian `u32`, one after the other.
pub open spec fn roots_encoding(roots: Seq<usize>) -> Seq<u8>
    decreases roots.len(),
{
    if roots.len() == 0 {
        Seq::empty()
    } else {
        roots_encoding(roots.drop_last()) + u32_le(roots.last() as u32)
    }
}

/// The magic bytes and version that open the builder's encoding.
pub open spec fn boc_header() -> Seq<u8> {
    seq![0xB5u8, 0xEEu8, 0x9Cu8, 0x72u8, 0x01u8]
}

/// The builder's encoding of a bag: header, cell count, root count (both
/// `u32`), the cells, then the roots.
pub open spec fn builder_encoding(b: BocView) -> Seq<u8> {
    boc_header() + u32_le(b.cells.len() as u32) + u32_le(b.roots.len() as u32) + cells_encoding(
        b.cells,
    ) + roots_encoding(b.roots)
}

/// The builder's state as a mathematical value.
pub struct BuilderView {
    pub cells: Seq<CellView>,
    pub max_cell_count: usize,
    pub max_bits_size: usize,
    pub max_depth: usize,
}

/// Collects cells for a bag of cells.
pub struct Builder {
    cells: Vec<Cell>,
    cell_hashes: Vec<[u8; 32]>,
    max_cell_count: usize,
    max_bits_size: usize,
    max_depth: usize,
}

impl View for Builder {
    type V = BuilderView;

    closed spec fn view(&self) -> BuilderView {
        BuilderView {
            cells: self.cells@.map_values(|c: Cell| c@),
            max_cell_count: self.max_cell_count,
            max_bits_size: self.max_bits_size,
            max_depth: self.max_depth,
        }
    }
}

impl Builder {
    #[verifier::type_invariant]
    closed spec fn inv(&self) -> bool {
        &&& self.cell_hashes.len() == self.cells.len()
        &&& forall|i: int|
            0 <= i < self.cells.len() ==> #[trigger] self.cell_hashes@[i]@ == content_digest(
                self.cells@[i]@,
            )
    }

    /// An empty builder with the default limits: 1000 cells, 1,000,000 bits,
    /// depth 256.
    pub fn new() -> (r: Builder)
        ensures
            r@.cells.len() == 0,
            r@.max_cell_count == 1000,
            r@.max_bits_size == 1_000_000,
            r@.max_depth == 256,
    {
        Builder {
            cells: Vec::new(),
            cell_hashes: Vec::new(),
            max_cell_count: 1000,
            max_bits_size: 1_000_000,
            max_depth: 256,
        }
    }

    /// An empty builder with the given limits.
    pub fn with_limits(max_cell_count: usize, max_bits_size: usize, max_depth: usize) -> (r:
        Builder)
        ensures
            r@.cells.len() == 0,
            r@.max_cell_count == max_cell_count,
            r@.max_bits_size == max_bits_size,
            r@.max_depth == max_depth,
    {
        Builder { cells: Vec::new(), cell_hashes: Vec::new(), max_cell_count, max_bits_size, max_depth }
    }

    /// The number of cells collected so far.
    pub fn cell_count(&self) -> (r: usize)
        ensures
            r == self@.cells.len(),
    {
        self.cells.len()
    }

    /// Adds a cell after computing its Merkle hash, and gives its index. A
    /// cell whose content digest equals that of a collected cell is not
    /// added again: the index of the first such cell is given. When the
    /// builder already holds `max_cell_count` cells, fails with
    /// `TooManyReferences` and changes nothing.
    #[verifier::loop_isolation(false)]
    pub fn add_cell(&mut self, cell: Cell) -> (r: Result<usize, CellError>)
        ensures
            old(self)@.cells.len() >= old(self)@.max_cell_count ==> r == Err::<usize, CellError>(
                CellError::TooManyReferences,
            ) && final(self)@ == old(self)@,
            old(self)@.cells.len() < old(self)@.max_cell_count ==> ({
                let h = content_digest(cell@);
                match first_with_digest(old(self)@.cells, h, 0) {
                    Some(i) => r == Ok::<usize, CellError>(i as usize) && final(self)@ == old(self)@,
                    None => r == Ok::<usize, CellError>(old(self)@.cells.len() as usize)
                        && final(self)@ == (BuilderView {
                        cells: old(self)@.cells.push(
                            CellView {
                                merkle_hash: sha256_digest(merkle_hash_input(cell@)),
                                ..cell@
                            },
                        ),
                        ..old(self)@
                    }),
                }
            }),
    {
        proof {
            use_type_invariant(&*self);
        }
        if self.cells.len() >= self.max_cell_count {
            return Err(CellError::TooManyReferences);
        }
        let mut cell = cell;
        let ghost c0 = cell@;
        let _ = cell.calculate_merkle_hash();
        let hash = cell.calculate_hash();
        assert(content_hash_input(cell@) == content_hash_input(c0));
        let ghost cells = self@.cells;
        let mut i: usize = 0;
        while i < self.cells.len()
            invariant
                i <= self.cells@.len(),
                cells == self@.cells,
                cells.len() == self.cells@.len(),
                self.cell_hashes@.len() == self.cells@.len(),
                forall|j: int|
                    0 <= j < self.cells@.len() ==> #[trigger] self.cell_hashes@[j]@
                        == content_digest(self.cells@[j]@),
                hash@ == content_digest(c0),
                first_with_digest(cells, hash@, 0) == first_with_digest(cells, hash@, i as int),
            decreases self.cells@.len() - i,
        {
            assert(cells[i as int] == self.cells@[i as int]@);
            if bytes32_eq(&self.cell_hashes[i], &hash) {
                return Ok(i);
            }
            i = i + 1;
        }
        let idx = self.cells.len();
        let mut taken = Builder::with_limits(self.max_cell_count, self.max_bits_size, self.max_depth);
        std::mem::swap(self, &mut taken);
        proof {
            use_type_invariant(&taken);
        }
        let Builder {
            cells: mut cells_vec,
            cell_hashes: mut hashes_vec,
            max_cell_count,
            max_bits_size,
            max_depth,
        } = taken;
        cells_vec.push(cell);
        hashes_vec.push(hash);
        *self = Builder { cells: cells_vec, cell_hashes: hashes_vec, max_cell_count, max_bits_size, max_depth };
        assert(self@.cells =~= cells.push(
            CellView { merkle_hash: sha256_digest(merkle_hash_input(c0)), ..c0 },
        ));
        Ok(idx)
    }

    /// Builds the bag with the given roots (see `build_result`).
    #[verifier::loop_isolation(false)]
    pub fn build(&self, roots: Vec<usize>) -> (r: Result<BOC, CellError>)
        ensures
            match build_result(self@.cells, self@.max_bits_size as int, roots@) {
                Ok(v) => r matches Ok(b) && b@ == v,
                Err(e) => r is Err && r->Err_0 == e,
            },
    {
        let n = self.cells.len();
        let ghost cells = self@.cells;
        let mut k: usize = 0;
        while k < roots.len()
            invariant
                k <= roots@.len(),
                first_invalid_root(roots@, n as int, 0) == first_invalid_root(roots@, n as int, k as int),
            decreases roots@.len() - k,
        {
            if roots[k] >= n {
                return Err(CellError::InvalidData);
            }
            k = k + 1;
        }
        let mut total: usize = 0;
        let mut i: usize = 0;
        while i < n
            invariant
                i <= n,
                n == cells.len(),
                total == total_bits(cells, i as int),
                total <= self.max_bits_size,
            decreases n - i,
        {
            assert(cells[i as int] == self.cells@[i as int]@);
            let bits = self.cells[i].bit_length();
            if bits > self.max_bits_size - total {
                assert(total_bits(cells, i + 1) == total + bits);
                proof {
                    crate::state::boc::verifiy_boc::lemma_total_bits_monotonic(cells, i + 1, n as int);
                }
                return Err(CellError::DataTooLarge);
            }
            total = total + bits;
            i = i + 1;
        }
        let mut copies: Vec<Cell> = Vec::new();
        let mut j: usize = 0;
        while j < n
            invariant
                j <= n,
                n == cells.len(),
                copies@.len() == j,
                forall|t: int| 0 <= t < j ==> #[trigger] copies@[t]@ == cells[t],
                forall|t: int, q: int|
                    0 <= t < j && 0 <= q < cells[t].references.len()
                        ==> #[trigger] cells[t].references[q].cell_index < n,
            decreases n - j,
        {
            let c = self.cells[j].duplicate();
            assert(c@ == cells[j as int]);
            let refs = c.references();
            let mut q: usize = 0;
            while q < refs.len()
                invariant
                    q <= refs@.len(),
                    refs@.map_values(|x: CellReference| x@) == cells[j as int].references,
                    forall|u: int| 0 <= u < q ==> #[trigger] cells[j as int].references[u].cell_index < n,
                decreases refs@.len() - q,
            {
                assert(cells[j as int].references[q as int] == refs@[q as int]@);
                if refs[q].cell_index >= n {
                    assert(cells[j as int].references[q as int].cell_index >= cells.len());
                    return Err(CellError::InvalidData);
                }
                q = q + 1;
            }
            copies.push(c);
            j = j + 1;
        }
        let boc = BOC { cells: copies, roots };
        assert(boc@.cells =~= cells);
        Ok(boc)
    }

    /// The builder's encoding (see `builder_encoding`) of the bag built with
    /// the given roots; fails as `build` does.
    pub fn serialize(&self, roots: Vec<usize>) -> (r: Result<Vec<u8>, CellError>)
        ensures
            match build_result(self@.cells, self@.max_bits_size as int, roots@) {
                Ok(v) => r matches Ok(bytes) && bytes@ == builder_encoding(v),
                Err(e) => r is Err && r->Err_0 == e,
            },
    {
        let boc = match self.build(roots) {
            Ok(b) => b,
            Err(e) => {
                return Err(e);
            },
        };
        let mut buffer: Vec<u8> = Vec::new();
        buffer.push(0xB5u8);
        buffer.push(0xEEu8);
        buffer.push(0x9Cu8);
        buffer.push(0x72u8);
        buffer.push(0x01u8);
        push_u32_le(&mut buffer, boc.cells.len() as u32);
        push_u32_le(&mut buffer, boc.roots.len() as u32);
        let ghost head = buffer@;
        let ghost cells = boc@.cells;
        let mut i: usize = 0;
        while i < boc.cells.len()
            invariant
                i <= boc.cells@.len(),
                cells == boc@.cells,
                buffer@ == head + cells_encoding(cells.take(i as int)),
            decreases boc.cells@.len() - i,
        {
            boc.cells[i].serialize(&mut buffer);
            proof {
                let t = cells.take(i + 1);
                assert(t.drop_last() =~= cells.take(i as int));
                assert(t.last() == boc.cells@[i as int]@);
            }
            i = i + 1;
        }
        assert(cells.take(cells.len() as int) =~= cells);
        let ghost mid = buffer@;
        let mut k: usize = 0;
        while k < boc.roots.len()
            invariant
                k <= boc.roots@.len(),
                buffer@ == mid + roots_encoding(boc.roots@.take(k as int)),
            decreases boc.roots@.len() - k,
        {
            push_u32_le(&mut buffer, boc.roots[k] as u32);
            proof {
                let t = boc.roots@.take(k + 1);
                assert(t.drop_last() =~= boc.roots@.take(k as int));
            }
            k = k + 1;
        }
        assert(boc.roots@.take(boc.roots@.len() as int) =~= boc.roots@);
        assert(buffer@ =~= builder_encoding(boc@));
        Ok(buffer)
    }
}

} // verus!
