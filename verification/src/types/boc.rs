//! Index-addressed cells and bags of cells, and SHA-256 helpers.
//!
//! A new bag holds an empty reserved cell at index 0; cells added to it are
//! numbered from 1, and the bag counts as empty while it holds no cell besides
//! the reserved one.

use vstd::prelude::*;
use crate::bytes::{push_all, push_u64_le, u64_le};
use crate::crypto::{sha256, sha256_digest};
use crate::error::{SystemError, SystemErrorType};

verus! {

/// A 256-bit value.
#[derive(Debug, Clone, Copy, PartialEq, Eq)]
pub struct H256(pub [u8; 32]);

/// How a script's code hash is to be read.
#[derive(Debug, Clone, Copy, PartialEq, Eq, Structural)]
pub enum ScriptHashType {
    Data,
    Type,
}

/// A lock or type script.
#[derive(Debug, Clone, PartialEq, Eq)]
pub struct Script {
    pub code_hash: H256,
    pub hash_type: ScriptHashType,
    pub args: Vec<u8>,
}

/// A root cell with its capacity and scripts.
#[derive(Debug, Clone, PartialEq, Eq)]
pub struct RootCell {
    pub capacity: u64,
    pub lock_script: Script,
    pub type_script: Script,
    pub data: Vec<u8>,
}

/// The kinds of cells.
#[derive(Debug, Clone, Copy, PartialEq, Eq, Structural)]
pub enum CellType {
    Ordinary,
    PrunedBranch,
    LibraryReference,
    MerkleProof,
    MerkleUpdate,
}

/// A cell whose references are indices of other cells of its bag.
#[derive(Debug, Clone)]
pub struct Cell {
    pub data: Vec<u8>,
    pub references: Vec<usize>,
    pub cell_type: CellType,
    pub merkle_hash: [u8; 32],
    pub proof: Option<Vec<u8>>,
}

/// A cell as a mathematical value.
#[verifier::ext_equal]
pub struct CellModel {
    pub data: Seq<u8>,
    pub references: Seq<usize>,
    pub cell_type: CellType,
    pub merkle_hash: Seq<u8>,
    pub proof: Option<Seq<u8>>,
}

/// The view of an optional byte vector.
pub open spec fn option_bytes_view(o: Option<Vec<u8>>) -> Option<Seq<u8>> {
    match o {
        Some(v) => Some(v@),
        None => None,
    }
}

impl View for Cell {
    type V = CellModel;

    open spec fn view(&self) -> CellModel {
        CellModel {
            data: self.data@,
            references: self.references@,
            cell_type: self.cell_type,
            merkle_hash: self.merkle_hash@,
            proof: option_bytes_view(self.proof),
        }
    }
}

/// The references of a cell, each as eight little-endian bytes, one after
/// the other.
pub open spec fn reference_index_bytes(refs: Seq<usize>) -> Seq<u8>
    decreases refs.len(),
{
    if refs.len() == 0 {
        Seq::empty()
    } else {
        reference_index_bytes(refs.drop_last()) + u64_le(refs.last() as u64)
    }
}

/// The Merkle hash of a cell: SHA-256 of its data and its reference indices.
pub open spec fn cell_merkle_hash(data: Seq<u8>, refs: Seq<usize>) -> Seq<u8> {
    sha256_digest(data + reference_index_bytes(refs))
}

/// The SHA-256 digest of `data`.
pub fn repr_hash(data: &[u8]) -> (r: [u8; 32])
    ensures
        r@ == sha256_digest(data@),
{
    sha256(data)
}

/// The SHA-256 digest of `data`.
pub fn hash(data: &[u8]) -> (r: [u8; 32])
    ensures
        r@ == sha256_digest(data@),
{
    sha256(data)
}

/// The SHA-256 digest of `left` followed by `right`.
pub fn hash_pair(left: &[u8], right: &[u8]) -> (r: [u8; 32])
    ensures
        r@ == sha256_digest(left@ + right@),
{
    let mut input: Vec<u8> = Vec::new();
    push_all(&mut input, left);
    push_all(&mut input, right);
    sha256(input.as_slice())
}

/// The SHA-256 digest of `value`.
pub fn hash_value(value: &[u8]) -> (r: [u8; 32])
    ensures
        r@ == sha256_digest(value@),
{
    sha256(value)
}

/// The SHA-256 digest of `data`.
pub fn root_hash(data: &[u8]) -> (r: [u8; 32])
    ensures
        r@ == sha256_digest(data@),
{
    sha256(data)
}

/// The SHA-256 digest of `data`.
pub fn root_cell_hash(data: &[u8]) -> (r: [u8; 32])
    ensures
        r@ == sha256_digest(data@),
{
    sha256(data)
}

/// The values of `s` in order of first occurrence, each once.
pub open spec fn dedup(s: Seq<usize>) -> Seq<usize>
    decreases s.len(),
{
    if s.len() == 0 {
        Seq::empty()
    } else if dedup(s.drop_last()).contains(s.last()) {
        dedup(s.drop_last())
    } else {
        dedup(s.drop_last()).push(s.last())
    }
}

/// `dedup` keeps each value of the list once: its result holds no value
/// twice, and holds exactly the values of the list.
pub proof fn lemma_dedup(s: Seq<usize>)
    ensures
        dedup(s).no_duplicates(),
        forall|x: usize| #[trigger] dedup(s).contains(x) <==> s.contains(x),
    decreases s.len(),
{
    if s.len() > 0 {
        let t = s.drop_last();
        lemma_dedup(t);
        assert forall|x: usize| #[trigger] s.contains(x) <==> (t.contains(x) || x == s.last()) by {
            if s.contains(x) {
                let i = choose|i: int| 0 <= i < s.len() && s[i] == x;
                if i < s.len() - 1 {
                    assert(t[i] == x);
                }
            }
            if t.contains(x) {
                let i = choose|i: int| 0 <= i < t.len() && t[i] == x;
                assert(s[i] == x);
            }
            if x == s.last() {
                assert(s[s.len() - 1] == x);
            }
        }
        if !dedup(t).contains(s.last()) {
            let d = dedup(t);
            assert forall|x: usize| #[trigger] d.push(s.last()).contains(x) <==> (d.contains(x)
                || x == s.last()) by {
                if d.push(s.last()).contains(x) {
                    let i = choose|i: int| 0 <= i < d.len() + 1 && d.push(s.last())[i] == x;
                    if i < d.len() {
                        assert(d[i] == x);
                    }
                }
                if d.contains(x) {
                    let i = choose|i: int| 0 <= i < d.len() && d[i] == x;
                    assert(d.push(s.last())[i] == x);
                }
                if x == s.last() {
                    assert(d.push(s.last())[d.len() as int] == x);
                }
            }
            assert forall|i: int, j: int|
                0 <= i < d.push(s.last()).len() && 0 <= j < d.push(s.last()).len() && i != j implies d.push(
                s.last(),
            )[i] != d.push(s.last())[j] by {
                if i < d.len() && j < d.len() {
                } else if i < d.len() {
                    assert(d.contains(d[i]));
                } else if j < d.len() {
                    assert(d.contains(d[j]));
                }
            }
        }
    }
}

/// The references of all cells, cell after cell.
pub open spec fn all_references(cells: Seq<CellModel>) -> Seq<usize>
    decreases cells.len(),
{
    if cells.len() == 0 {
        Seq::empty()
    } else {
        all_references(cells.drop_last()) + cells.last().references
    }
}

/// The distinct references of the cells, in order of first occurrence.
pub fn get_refs(cells: &[Cell]) -> (r: Vec<usize>)
    ensures
        r@ == dedup(all_references(cells@.map_values(|c: Cell| c@))),
{
    let ghost models = cells@.map_values(|c: Cell| c@);
    let mut references: Vec<usize> = Vec::new();
    let mut i: usize = 0;
    while i < cells.len()
        invariant
            i <= cells@.len(),
            models == cells@.map_values(|c: Cell| c@),
            references@ == dedup(all_references(models.take(i as int))),
        decreases cells@.len() - i,
    {
        let ghost before = all_references(models.take(i as int));
        let refs = &cells[i].references;
        let mut k: usize = 0;
        while k < refs.len()
            invariant
                k <= refs@.len(),
                references@ == dedup(before + refs@.take(k as int)),
            decreases refs@.len() - k,
        {
            let x = refs[k];
            let mut found = false;
            let mut j: usize = 0;
            while j < references.len()
                invariant
                    j <= references@.len(),
                    found == (exists|t: int| 0 <= t < j && references@[t] == x),
                decreases references@.len() - j,
            {
                if references[j] == x {
                    found = true;
                }
                j = j + 1;
            }
            assert(found == references@.contains(x));
            let ghost s = before + refs@.take(k + 1);
            assert(s.drop_last() =~= before + refs@.take(k as int));
            assert(s.last() == x);
            if !found {
                references.push(x);
            }
            k = k + 1;
        }
        proof {
            let t = models.take(i + 1);
            assert(t.drop_last() =~= models.take(i as int));
            assert(t.last() == cells@[i as int]@);
            assert(refs@.take(refs@.len() as int) =~= refs@);
        }
        i = i + 1;
    }
    assert(models.take(cells@.len() as int) =~= models);
    references
}

impl Cell {
    /// A cell with all fields given.
    pub fn new(
        data: Vec<u8>,
        references: Vec<usize>,
        cell_type: CellType,
        merkle_hash: [u8; 32],
        proof: Option<Vec<u8>>,
    ) -> (r: Cell)
        ensures
            r.data == data,
            r.references == references,
            r.cell_type == cell_type,
            r.merkle_hash == merkle_hash,
            r.proof == proof,
    {
        Cell { data, references, cell_type, merkle_hash, proof }
    }

    /// An ordinary cell with the given data, no references, a zero hash and
    /// no proof.
    pub fn with_data(data: Vec<u8>) -> (r: Cell)
        ensures
            r.data == data,
            r.references@.len() == 0,
            r.cell_type == CellType::Ordinary,
            r.merkle_hash@ == Seq::new(32, |i: int| 0u8),
            r.proof is None,
    {
        let r = Cell {
            data,
            references: Vec::new(),
            cell_type: CellType::Ordinary,
            merkle_hash: [0u8; 32],
            proof: None,
        };
        assert(r.merkle_hash@ =~= Seq::new(32, |i: int| 0u8));
        r
    }

    /// Same as `with_data`.
    pub fn from_data(data: Vec<u8>) -> (r: Cell)
        ensures
            r.data == data,
            r.references@.len() == 0,
            r.cell_type == CellType::Ordinary,
            r.merkle_hash@ == Seq::new(32, |i: int| 0u8),
            r.proof is None,
    {
        Self::with_data(data)
    }

    /// The cell's data.
    pub fn get_data(&self) -> (r: &Vec<u8>)
        ensures
            r == &self.data,
    {
        &self.data
    }

    /// Recomputes the Merkle hash from the data and the references.
    pub fn update_merkle_hash(&mut self)
        ensures
            final(self)@ == (CellModel {
                merkle_hash: cell_merkle_hash(old(self)@.data, old(self)@.references),
                ..old(self)@
            }),
    {
        let mut input: Vec<u8> = Vec::new();
        push_all(&mut input, self.data.as_slice());
        let ghost start = input@;
        let mut i: usize = 0;
        while i < self.references.len()
            invariant
                i <= self.references@.len(),
                input@ == start + reference_index_bytes(self.references@.take(i as int)),
            decreases self.references@.len() - i,
        {
            push_u64_le(&mut input, self.references[i] as u64);
            proof {
                let t = self.references@.take(i + 1);
                assert(t.drop_last() =~= self.references@.take(i as int));
            }
            i = i + 1;
        }
        assert(self.references@.take(self.references@.len() as int) =~= self.references@);
        assert(input@ =~= self.data@ + reference_index_bytes(self.references@));
        self.merkle_hash = sha256(input.as_slice());
    }

    /// An empty ordinary cell: no data, no references, a zero hash, no proof.
    pub fn default() -> (r: Cell)
        ensures
            r.data@.len() == 0,
            r.references@.len() == 0,
            r.cell_type == CellType::Ordinary,
            r.merkle_hash@ == Seq::new(32, |i: int| 0u8),
            r.proof is None,
    {
        Self::with_data(Vec::new())
    }
}

/// A bag of index-addressed cells with root indices.
#[derive(Debug, Clone)]
pub struct BOC {
    pub cells: Vec<Cell>,
    pub roots: Vec<usize>,
}

/// The empty reserved cell at index 0 of a new bag.
pub open spec fn reserved_cell() -> CellModel {
    CellModel {
        data: Seq::empty(),
        references: Seq::empty(),
        cell_type: CellType::Ordinary,
        merkle_hash: Seq::new(32, |i: int| 0u8),
        proof: None,
    }
}

/// The index of the root cell, when the first root names a cell.
pub open spec fn root_index(b: &BOC) -> Option<int> {
    if b.roots@.len() > 0 && b.roots@[0] < b.cells@.len() {
        Some(b.roots@[0] as int)
    } else {
        None
    }
}

/// The error of an operation that needs a root cell where there is none.
pub open spec fn no_root_error(r: Result<(), SystemError>, t: SystemErrorType) -> bool {
    r matches Err(e) && e.error_type == t && e.message@ == "No root cell defined"@
}

impl BOC {
    /// A new bag: the reserved cell and no roots.
    pub fn new() -> (r: BOC)
        ensures
            r.cells@.len() == 1,
            r.cells@[0]@ == reserved_cell(),
            r.roots@.len() == 0,
    {
        let mut cells: Vec<Cell> = Vec::new();
        cells.push(Cell::default());
        let r = BOC { cells, roots: Vec::new() };
        assert(r.cells@[0]@ =~= reserved_cell());
        r
    }

    /// Same as `new`.
    pub fn default() -> (r: BOC)
        ensures
            r.cells@.len() == 1,
            r.cells@[0]@ == reserved_cell(),
            r.roots@.len() == 0,
    {
        Self::new()
    }

    /// Appends a cell and gives its index.
    pub fn add_cell(&mut self, cell: Cell) -> (r: usize)
        ensures
            r == old(self).cells@.len(),
            final(self).cells@ == old(self).cells@.push(cell),
            final(self).roots@ == old(self).roots@,
    {
        let index = self.cells.len();
        self.cells.push(cell);
        index
    }

    /// Appends a root index.
    pub fn add_root(&mut self, index: usize)
        ensures
            final(self).cells@ == old(self).cells@,
            final(self).roots@ == old(self).roots@.push(index),
    {
        self.roots.push(index);
    }

    /// The cell at `index`, if any.
    pub fn get_cell(&self, index: usize) -> (r: Option<&Cell>)
        ensures
            index < self.cells@.len() ==> r == Some(&self.cells@[index as int]),
            index >= self.cells@.len() ==> r is None,
    {
        if index < self.cells.len() {
            Some(&self.cells[index])
        } else {
            None
        }
    }

    /// The cell at `index`, for changing it, if any.
    pub fn get_cell_mut(&mut self, index: usize) -> (r: Option<&mut Cell>)
        ensures
            index < old(self).cells@.len() ==> (r matches Some(c) && *c == old(self).cells@[index as int]
                && final(self).cells@ == old(self).cells@.update(index as int, *final(c))),
            index >= old(self).cells@.len() ==> r is None && final(self).cells@ == old(self).cells@,
            final(self).roots@ == old(self).roots@,
    {
        if index < self.cells.len() {
            Some(&mut self.cells[index])
        } else {
            None
        }
    }

    /// The cell named by the first root, if any.
    pub fn get_root_cell(&self) -> (r: Option<&Cell>)
        ensures
            match root_index(self) {
                Some(i) => r == Some(&self.cells@[i]),
                None => r is None,
            },
    {
        if self.roots.len() > 0 {
            self.get_cell(self.roots[0])
        } else {
            None
        }
    }

    /// The cell named by the first root, for changing it, if any.
    pub fn get_root_cell_mut(&mut self) -> (r: Option<&mut Cell>)
        ensures
            match root_index(old(self)) {
                Some(i) => r matches Some(c) && *c == old(self).cells@[i]
                    && final(self).cells@ == old(self).cells@.update(i, *final(c)),
                None => r is None && final(self).cells@ == old(self).cells@,
            },
            final(self).roots@ == old(self).roots@,
    {
        if self.roots.len() > 0 {
            let root_idx = self.roots[0];
            self.get_cell_mut(root_idx)
        } else {
            None
        }
    }

    /// The number of cells, the reserved one included.
    pub fn cell_count(&self) -> (r: usize)
        ensures
            r == self.cells@.len(),
    {
        self.cells.len()
    }

    /// The number of roots.
    pub fn root_count(&self) -> (r: usize)
        ensures
            r == self.roots@.len(),
    {
        self.roots.len()
    }

    /// Whether the bag holds no cell besides the reserved one.
    pub fn is_empty(&self) -> (r: bool)
        ensures
            r == (self.cells@.len() <= 1),
    {
        self.cells.len() <= 1
    }

    /// Removes every cell and root, leaving the bag as `new` makes it.
    pub fn clear(&mut self)
        ensures
            final(self).cells@.len() == 1,
            final(self).cells@[0]@ == reserved_cell(),
            final(self).roots@.len() == 0,
    {
        *self = BOC::new();
    }

    /// Replaces the data of the root cell and recomputes its Merkle hash;
    /// `NoRootCell` when there is no root cell.
    pub fn set_data(&mut self, data: &[u8]) -> (r: Result<(), SystemError>)
        ensures
            final(self).roots@ == old(self).roots@,
            match root_index(old(self)) {
                Some(i) => r is Ok && final(self).cells@.len() == old(self).cells@.len()
                    && (forall|j: int| 0 <= j < old(self).cells@.len() && j != i
                        ==> final(self).cells@[j] == old(self).cells@[j])
                    && final(self).cells@[i]@ == (CellModel {
                        data: data@,
                        merkle_hash: cell_merkle_hash(data@, old(self).cells@[i]@.references),
                        ..old(self).cells@[i]@
                    }),
                None => no_root_error(r, SystemErrorType::NoRootCell)
                    && final(self).cells@ == old(self).cells@,
            },
    {
        if self.roots.len() > 0 && self.roots[0] < self.cells.len() {
            let i = self.roots[0];
            let mut v: Vec<u8> = Vec::new();
            push_all(&mut v, data);
            self.cells[i].data = v;
            self.cells[i].update_merkle_hash();
            Ok(())
        } else {
            Err(SystemError::new(SystemErrorType::NoRootCell, String::from_str("No root cell defined")))
        }
    }

    /// Replaces the Merkle hash of the root cell; `InvalidOperation` when
    /// there is no root cell.
    pub fn set_merkle_root(&mut self, merkle_root: [u8; 32]) -> (r: Result<(), SystemError>)
        ensures
            final(self).roots@ == old(self).roots@,
            match root_index(old(self)) {
                Some(i) => r is Ok && final(self).cells@ == old(self).cells@.update(
                    i,
                    Cell { merkle_hash: merkle_root, ..old(self).cells@[i] },
                ),
                None => no_root_error(r, SystemErrorType::InvalidOperation)
                    && final(self).cells@ == old(self).cells@,
            },
    {
        if self.roots.len() > 0 && self.roots[0] < self.cells.len() {
            let i = self.roots[0];
            self.cells[i].merkle_hash = merkle_root;
            Ok(())
        } else {
            Err(
                SystemError::new(
                    SystemErrorType::InvalidOperation,
                    String::from_str("No root cell defined"),
                ),
            )
        }
    }

    /// Stores proof data in the root cell; `NoRootCell` when there is no
    /// root cell.
    pub fn set_proof(&mut self, proof: &[u8]) -> (r: Result<(), SystemError>)
        ensures
            final(self).roots@ == old(self).roots@,
            match root_index(old(self)) {
                Some(i) => r is Ok && final(self).cells@.len() == old(self).cells@.len()
                    && (forall|j: int| 0 <= j < old(self).cells@.len() && j != i
                        ==> final(self).cells@[j] == old(self).cells@[j])
                    && final(self).cells@[i]@ == (CellModel {
                        proof: Some(proof@),
                        ..old(self).cells@[i]@
                    }),
                None => no_root_error(r, SystemErrorType::NoRootCell)
                    && final(self).cells@ == old(self).cells@,
            },
    {
        if self.roots.len() > 0 && self.roots[0] < self.cells.len() {
            let i = self.roots[0];
            let mut v: Vec<u8> = Vec::new();
            push_all(&mut v, proof);
            self.cells[i].proof = Some(v);
            Ok(())
        } else {
            Err(SystemError::new(SystemErrorType::NoRootCell, String::from_str("No root cell defined")))
        }
    }

    /// The Merkle hash of the root cell; `NoRootCell` when there is none.
    pub fn root_hash(&self) -> (r: Result<[u8; 32], SystemError>)
        ensures
            match root_index(self) {
                Some(i) => r == Ok::<[u8; 32], SystemError>(self.cells@[i].merkle_hash),
                None => r matches Err(e) && e.error_type == SystemErrorType::NoRootCell
                    && e.message@ == "No root cell defined"@,
            },
    {
        match self.get_root_cell() {
            Some(c) => Ok(c.merkle_hash),
            None => Err(SystemError::new(SystemErrorType::NoRootCell, String::from_str("No root cell defined"))),
        }
    }
}

} // verus!
