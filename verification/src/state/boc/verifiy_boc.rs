//! Structural verification of a bag of cells: size limits, the rules of each
//! cell, valid roots, and a depth-bounded depth-first search that rejects
//! cycles.

use vstd::prelude::*;
use crate::crypto::sha256_digest;
use crate::state::boc::cell::{Cell, CellView, MAX_BYTES, MAX_REFERENCES, merkle_hash_input};
use crate::types::ovp_types::{BOC, BocView, CellReference, CellType, ReferenceView};

verus! {

/// The reasons a bag of cells is rejected.
#[derive(Debug, Clone, Copy, PartialEq, Eq, Structural)]
pub enum BocError {
    TooManyCells,
    NoRoots,
    TotalSizeTooLarge,
    CellDataTooLarge,
    TooManyReferences,
    InvalidReference { from: usize, to: usize },
    InvalidRoot(usize),
    InvalidMerkleProof,
    InvalidPrunedBranch,
    CycleDetected,
    MaxDepthExceeded,
}

/// The number of data bits of the first `k` cells.
pub open spec fn total_bits(cells: Seq<CellView>, k: int) -> int
    decreases k,
{
    if k <= 0 {
        0
    } else {
        total_bits(cells, k - 1) + cells[k - 1].data.len() * 8
    }
}

/// The target of the first reference, from the `k`th on, that names no cell
/// of a bag of `n` cells.
pub open spec fn first_invalid_reference(refs: Seq<ReferenceView>, n: int, k: int) -> Option<usize>
    decreases refs.len() - k,
{
    if k < 0 || k >= refs.len() {
        None
    } else if refs[k].cell_index >= n {
        Some(refs[k].cell_index)
    } else {
        first_invalid_reference(refs, n, k + 1)
    }
}

/// The rules for the cell at `index` of a bag of `n` cells, checked in this
/// order: data size, reference count, reference targets, then the rules of
/// its type (a Merkle proof cell must hold its own Merkle hash; a pruned
/// branch has no references).
pub open spec fn cell_check(cell: CellView, index: usize, n: int) -> Result<(), BocError> {
    if cell.data.len() > MAX_BYTES {
        Err(BocError::CellDataTooLarge)
    } else if cell.references.len() > MAX_REFERENCES {
        Err(BocError::TooManyReferences)
    } else if let Some(to) = first_invalid_reference(cell.references, n, 0) {
        Err(BocError::InvalidReference { from: index, to })
    } else if cell.cell_type == CellType::MerkleProof && cell.merkle_hash != sha256_digest(
        merkle_hash_input(cell),
    ) {
        Err(BocError::InvalidMerkleProof)
    } else if cell.cell_type == CellType::PrunedBranch && cell.references.len() > 0 {
        Err(BocError::InvalidPrunedBranch)
    } else {
        Ok(())
    }
}

/// The first failure of `cell_check` among the cells from the `k`th on.
pub open spec fn cells_check(cells: Seq<CellView>, k: int) -> Result<(), BocError>
    decreases cells.len() - k,
{
    if k < 0 || k >= cells.len() {
        Ok(())
    } else if let Err(e) = cell_check(cells[k], k as usize, cells.len() as int) {
        Err(e)
    } else {
        cells_check(cells, k + 1)
    }
}

/// The first root, from the `k`th on, that names no cell of a bag of `n`
/// cells.
pub open spec fn roots_check(roots: Seq<usize>, n: int, k: int) -> Result<(), BocError>
    decreases roots.len() - k,
{
    if k < 0 || k >= roots.len() {
        Ok(())
    } else if roots[k] >= n {
        Err(BocError::InvalidRoot(roots[k]))
    } else {
        roots_check(roots, n, k + 1)
    }
}

/// Depth-first visit of cell `idx` at `depth`, given the cells already fully
/// visited and the cells on the current path. Fails with
/// `MaxDepthExceeded` past `max_depth`, with `CycleDetected` on reaching a
/// cell of the path; otherwise gives the visited cells afterwards.
pub open spec fn dag_visit(
    cells: Seq<CellView>,
    max_depth: int,
    idx: int,
    visited: Set<int>,
    path: Set<int>,
    depth: int,
) -> Result<Set<int>, BocError>
    decreases max_depth - depth, 1int, 0int,
{
    if depth > max_depth {
        Err(BocError::MaxDepthExceeded)
    } else if path.contains(idx) {
        Err(BocError::CycleDetected)
    } else if visited.contains(idx) {
        Ok(visited)
    } else {
        match dag_children(cells, max_depth, cells[idx].references, 0, visited, path.insert(idx), depth) {
            Err(e) => Err(e),
            Ok(v) => Ok(v.insert(idx)),
        }
    }
}

/// Visits, in order, the targets of the references from the `k`th on of a
/// cell visited at `depth`.
pub open spec fn dag_children(
    cells: Seq<CellView>,
    max_depth: int,
    refs: Seq<ReferenceView>,
    k: int,
    visited: Set<int>,
    path: Set<int>,
    depth: int,
) -> Result<Set<int>, BocError>
    decreases max_depth - depth, 0int, refs.len() - k,
{
    if k < 0 || k >= refs.len() {
        Ok(visited)
    } else if depth >= max_depth {
        Err(BocError::MaxDepthExceeded)
    } else {
        match dag_visit(cells, max_depth, refs[k].cell_index as int, visited, path, depth + 1) {
            Err(e) => Err(e),
            Ok(v) => dag_children(cells, max_depth, refs, k + 1, v, path, depth),
        }
    }
}

/// Visits the roots from the `k`th on, each from depth 0 with an empty path.
pub open spec fn dag_roots(
    cells: Seq<CellView>,
    max_depth: int,
    roots: Seq<usize>,
    k: int,
    visited: Set<int>,
) -> Result<Set<int>, BocError>
    decreases roots.len() - k,
{
    if k < 0 || k >= roots.len() {
        Ok(visited)
    } else {
        match dag_visit(cells, max_depth, roots[k] as int, visited, Set::empty(), 0) {
            Err(e) => Err(e),
            Ok(v) => dag_roots(cells, max_depth, roots, k + 1, v),
        }
    }
}

/// The outcome of verifying a bag of cells under the given limits: the
/// structure (cell count, at least one root, total bits), then each cell,
/// then the roots, then the depth-first search from the roots.
pub open spec fn verify_boc_result(
    max_cell_count: int,
    max_bits_size: int,
    max_depth: int,
    b: BocView,
) -> Result<(), BocError> {
    if b.cells.len() > max_cell_count {
        Err(BocError::TooManyCells)
    } else if b.roots.len() == 0 {
        Err(BocError::NoRoots)
    } else if total_bits(b.cells, b.cells.len() as int) > max_bits_size {
        Err(BocError::TotalSizeTooLarge)
    } else if let Err(e) = cells_check(b.cells, 0) {
        Err(e)
    } else if let Err(e) = roots_check(b.roots, b.cells.len() as int, 0) {
        Err(e)
    } else if let Err(e) = dag_roots(b.cells, max_depth, b.roots, 0, Set::empty()) {
        Err(e)
    } else {
        Ok(())
    }
}

/// The limits under which bags of cells are verified.
pub struct VerifyBOC {
    max_cell_count: usize,
    max_bits_size: usize,
    max_depth: usize,
}

impl View for VerifyBOC {
    type V = (usize, usize, usize);

    closed spec fn view(&self) -> (usize, usize, usize) {
        (self.max_cell_count, self.max_bits_size, self.max_depth)
    }
}

impl VerifyBOC {
    /// The default limits: 1000 cells, 1000 bits, depth 100.
    pub fn default() -> (r: VerifyBOC)
        ensures
            r@ == (1000usize, 1000usize, 100usize),
    {
        VerifyBOC { max_cell_count: 1000, max_bits_size: 1000, max_depth: 100 }
    }

    /// A verifier with the given limits.
    pub fn new(max_cell_count: usize, max_bits_size: usize, max_depth: usize) -> (r: VerifyBOC)
        ensures
            r@ == (max_cell_count, max_bits_size, max_depth),
    {
        VerifyBOC { max_cell_count, max_bits_size, max_depth }
    }
}

/// The cells flagged in `flags`.
pub open spec fn flag_set(flags: Seq<bool>) -> Set<int> {
    Set::new(|i: int| 0 <= i < flags.len() && flags[i])
}

/// Every reference of every cell names a cell of the bag.
pub open spec fn references_in_bounds(cells: Seq<CellView>) -> bool {
    forall|i: int, k: int|
        0 <= i < cells.len() && 0 <= k < cells[i].references.len()
            ==> #[trigger] cells[i].references[k].cell_index < cells.len()
}

/// The bit total only grows with the number of cells counted.
pub proof fn lemma_total_bits_monotonic(cells: Seq<CellView>, i: int, j: int)
    requires
        0 <= i <= j,
    ensures
        total_bits(cells, i) <= total_bits(cells, j),
    decreases j,
{
    if i < j {
        lemma_total_bits_monotonic(cells, i, j - 1);
    }
}

proof fn lemma_first_invalid_reference_none(refs: Seq<ReferenceView>, n: int, k: int)
    requires
        0 <= k,
        first_invalid_reference(refs, n, k) is None,
    ensures
        forall|j: int| k <= j < refs.len() ==> #[trigger] refs[j].cell_index < n,
    decreases refs.len() - k,
{
    if k < refs.len() {
        lemma_first_invalid_reference_none(refs, n, k + 1);
    }
}

proof fn lemma_cells_check_ok(cells: Seq<CellView>, k: int)
    requires
        0 <= k,
        cells_check(cells, k) is Ok,
    ensures
        forall|i: int, j: int|
            k <= i < cells.len() && 0 <= j < cells[i].references.len()
                ==> #[trigger] cells[i].references[j].cell_index < cells.len(),
    decreases cells.len() - k,
{
    if k < cells.len() {
        lemma_cells_check_ok(cells, k + 1);
        lemma_first_invalid_reference_none(cells[k].references, cells.len() as int, 0);
    }
}

proof fn lemma_roots_check_ok(roots: Seq<usize>, n: int, k: int)
    requires
        0 <= k,
        roots_check(roots, n, k) is Ok,
    ensures
        forall|j: int| k <= j < roots.len() ==> #[trigger] roots[j] < n,
    decreases roots.len() - k,
{
    if k < roots.len() {
        lemma_roots_check_ok(roots, n, k + 1);
    }
}

/// Whether cell `a` holds a reference to cell `b`.
pub open spec fn references_cell(cells: Seq<CellView>, a: int, b: int) -> bool {
    exists|k: int| 0 <= k < cells[a].references.len() && #[trigger] cells[a].references[k].cell_index == b
}

/// A walk along references: each cell of it references the next.
pub open spec fn is_reference_walk(cells: Seq<CellView>, w: Seq<int>) -> bool {
    forall|i: int| 0 <= i < w.len() - 1 ==> #[trigger] references_cell(cells, w[i], w[i + 1])
}

/// The cells of `v` reference only cells of `v`, and `rank`, below the size
/// of `v`, drops along every reference.
pub open spec fn ranked_closed(cells: Seq<CellView>, v: Set<int>, rank: spec_fn(int) -> int) -> bool {
    &&& forall|u: int| #[trigger] v.contains(u) ==> 0 <= rank(u) < v.len()
    &&& forall|u: int, k: int|
        v.contains(u) && 0 <= k < cells[u].references.len() ==> v.contains(
            #[trigger] cells[u].references[k].cell_index as int,
        ) && rank(cells[u].references[k].cell_index as int) < rank(u)
}

/// A finite set of cells that some rank orders as `ranked_closed` says.
pub open spec fn well_ranked(cells: Seq<CellView>, v: Set<int>) -> bool {
    v.finite() && exists|rank: spec_fn(int) -> int| ranked_closed(cells, v, rank)
}

/// A successful visit leaves the visited cells well ranked, adds the cell it
/// started from, and keeps them apart from the path.
proof fn lemma_visit_ranked(
    cells: Seq<CellView>,
    max_depth: int,
    idx: int,
    visited: Set<int>,
    path: Set<int>,
    depth: int,
)
    requires
        well_ranked(cells, visited),
        forall|x: int| visited.contains(x) ==> !path.contains(x),
        dag_visit(cells, max_depth, idx, visited, path, depth) is Ok,
    ensures
        ({
            let v = dag_visit(cells, max_depth, idx, visited, path, depth)->Ok_0;
            &&& well_ranked(cells, v)
            &&& visited.subset_of(v)
            &&& v.contains(idx)
            &&& forall|x: int| v.contains(x) ==> !path.contains(x)
        }),
    decreases max_depth - depth, 1int, 0int,
{
    if depth > max_depth || path.contains(idx) || visited.contains(idx) {
    } else {
        let p2 = path.insert(idx);
        let refs = cells[idx].references;
        lemma_children_ranked(cells, max_depth, refs, 0, visited, p2, depth);
        let vc = dag_children(cells, max_depth, refs, 0, visited, p2, depth)->Ok_0;
        let v = vc.insert(idx);
        assert(!vc.contains(idx));
        let rc = choose|rank: spec_fn(int) -> int| ranked_closed(cells, vc, rank);
        let r2 = |x: int| if x == idx { vc.len() as int } else { rc(x) };
        assert(v.len() == vc.len() + 1);
        assert forall|u: int| #[trigger] v.contains(u) implies 0 <= r2(u) < v.len() by {
            if u != idx {
                assert(vc.contains(u));
            }
        }
        assert forall|u: int, k: int|
            v.contains(u) && 0 <= k < cells[u].references.len() implies v.contains(
            #[trigger] cells[u].references[k].cell_index as int,
        ) && r2(cells[u].references[k].cell_index as int) < r2(u) by {
            let w = cells[u].references[k].cell_index as int;
            if u == idx {
                assert(refs[k].cell_index as int == w);
                assert(vc.contains(w));
            } else {
                assert(vc.contains(u));
                assert(vc.contains(w));
            }
        }
        assert(ranked_closed(cells, v, r2));
    }
}

/// A successful visit of the references from the `k`th on leaves the visited
/// cells well ranked, adds each target, and keeps them apart from the path.
proof fn lemma_children_ranked(
    cells: Seq<CellView>,
    max_depth: int,
    refs: Seq<ReferenceView>,
    k: int,
    visited: Set<int>,
    path: Set<int>,
    depth: int,
)
    requires
        0 <= k,
        well_ranked(cells, visited),
        forall|x: int| visited.contains(x) ==> !path.contains(x),
        dag_children(cells, max_depth, refs, k, visited, path, depth) is Ok,
    ensures
        ({
            let v = dag_children(cells, max_depth, refs, k, visited, path, depth)->Ok_0;
            &&& well_ranked(cells, v)
            &&& visited.subset_of(v)
            &&& forall|j: int| k <= j < refs.len() ==> v.contains(#[trigger] refs[j].cell_index as int)
            &&& forall|x: int| v.contains(x) ==> !path.contains(x)
        }),
    decreases max_depth - depth, 0int, refs.len() - k,
{
    if k >= refs.len() || depth >= max_depth {
    } else {
        let c = refs[k].cell_index as int;
        lemma_visit_ranked(cells, max_depth, c, visited, path, depth + 1);
        let v1 = dag_visit(cells, max_depth, c, visited, path, depth + 1)->Ok_0;
        lemma_children_ranked(cells, max_depth, refs, k + 1, v1, path, depth);
        let v = dag_children(cells, max_depth, refs, k + 1, v1, path, depth)->Ok_0;
        assert forall|j: int| k <= j < refs.len() implies v.contains(#[trigger] refs[j].cell_index as int) by {
            if j == k {
                assert(v1.contains(c));
            }
        }
    }
}

/// Visiting the roots from the `k`th on leaves the visited cells well ranked
/// and holding every one of those roots.
proof fn lemma_roots_ranked(
    cells: Seq<CellView>,
    max_depth: int,
    roots: Seq<usize>,
    k: int,
    visited: Set<int>,
)
    requires
        0 <= k,
        well_ranked(cells, visited),
        dag_roots(cells, max_depth, roots, k, visited) is Ok,
    ensures
        ({
            let v = dag_roots(cells, max_depth, roots, k, visited)->Ok_0;
            &&& well_ranked(cells, v)
            &&& visited.subset_of(v)
            &&& forall|j: int| k <= j < roots.len() ==> v.contains(#[trigger] roots[j] as int)
        }),
    decreases roots.len() - k,
{
    if k < roots.len() {
        let r = roots[k] as int;
        lemma_visit_ranked(cells, max_depth, r, visited, Set::empty(), 0);
        let v1 = dag_visit(cells, max_depth, r, visited, Set::empty(), 0)->Ok_0;
        lemma_roots_ranked(cells, max_depth, roots, k + 1, v1);
        let v = dag_roots(cells, max_depth, roots, k + 1, v1)->Ok_0;
        assert forall|j: int| k <= j < roots.len() implies v.contains(#[trigger] roots[j] as int) by {
            if j == k {
                assert(v1.contains(r));
            }
        }
    }
}

/// Along a walk that starts in a ranked, closed set, every cell is in the
/// set and the rank only drops.
proof fn lemma_walk_descends(
    cells: Seq<CellView>,
    v: Set<int>,
    rank: spec_fn(int) -> int,
    w: Seq<int>,
    i: int,
)
    requires
        ranked_closed(cells, v, rank),
        is_reference_walk(cells, w),
        0 <= i < w.len(),
        v.contains(w[0]),
    ensures
        v.contains(w[i]),
        forall|j: int| 0 <= j < i ==> rank(w[i]) < rank(#[trigger] w[j]),
    decreases i,
{
    if i > 0 {
        lemma_walk_descends(cells, v, rank, w, i - 1);
        let m = i - 1;
        assert(references_cell(cells, w[m], w[m + 1]));
        assert(m + 1 == i);
        let k = choose|k: int|
            0 <= k < cells[w[i - 1]].references.len() && #[trigger] cells[w[i - 1]].references[k].cell_index
                == w[i];
        assert(v.contains(cells[w[i - 1]].references[k].cell_index as int));
    }
}

/// A bag that passes verification holds no cycle reachable from a root:
/// every walk along references that starts at a root passes through
/// distinct cells.
pub proof fn lemma_verified_bag_has_no_reachable_cycle(
    max_cell_count: int,
    max_bits_size: int,
    max_depth: int,
    b: BocView,
    w: Seq<int>,
)
    requires
        verify_boc_result(max_cell_count, max_bits_size, max_depth, b) is Ok,
        w.len() > 0,
        exists|r: int| 0 <= r < b.roots.len() && #[trigger] b.roots[r] == w[0],
        is_reference_walk(b.cells, w),
    ensures
        forall|i: int, j: int| 0 <= i < j < w.len() ==> w[i] != w[j],
{
    let empty = Set::<int>::empty();
    let r0 = |x: int| 0int;
    assert(ranked_closed(b.cells, empty, r0));
    lemma_roots_ranked(b.cells, max_depth, b.roots, 0, empty);
    let v = dag_roots(b.cells, max_depth, b.roots, 0, empty)->Ok_0;
    let rank = choose|rank: spec_fn(int) -> int| ranked_closed(b.cells, v, rank);
    let r = choose|r: int| 0 <= r < b.roots.len() && #[trigger] b.roots[r] == w[0];
    assert(v.contains(b.roots[r] as int));
    assert forall|i: int, j: int| 0 <= i < j < w.len() implies w[i] != w[j] by {
        lemma_walk_descends(b.cells, v, rank, w, j);
    }
}

/// A walk that starts at a root of the bag.
pub open spec fn starts_at_root(b: BocView, w: Seq<int>) -> bool {
    w.len() > 0 && exists|r: int| 0 <= r < b.roots.len() && #[trigger] b.roots[r] as int == w[0]
}

/// A walk that passes through some cell twice.
pub open spec fn has_repeat(w: Seq<int>) -> bool {
    exists|i: int, j: int| 0 <= i < j < w.len() && #[trigger] w[i] == #[trigger] w[j]
}

/// Extending a walk by a reference of its last cell gives a walk.
proof fn lemma_walk_push(cells: Seq<CellView>, w: Seq<int>, k: int)
    requires
        is_reference_walk(cells, w),
        w.len() > 0,
        0 <= k < cells[w.last()].references.len(),
    ensures
        is_reference_walk(cells, w.push(cells[w.last()].references[k].cell_index as int)),
{
    let c = cells[w.last()].references[k].cell_index as int;
    let w2 = w.push(c);
    assert forall|i: int| 0 <= i < w2.len() - 1 implies #[trigger] references_cell(cells, w2[i], w2[i + 1]) by {
        if i < w.len() - 1 {
            assert(references_cell(cells, w[i], w[i + 1]));
        } else {
            assert(w2[i] == w.last());
            assert(w2[i + 1] == c);
            assert(cells[w2[i]].references[k].cell_index == w2[i + 1]);
        }
    }
}

/// The errors of a visit, given the walk from the root to the visited cell
/// (`stack`, then `idx`), whose cells before `idx` make up the path: a
/// reported cycle comes with a walk from the same start that passes through
/// a cell twice, a reported excess depth with a walk from the same start of
/// `max_depth + 2` cells.
proof fn lemma_visit_error_witness(
    cells: Seq<CellView>,
    max_depth: int,
    idx: int,
    visited: Set<int>,
    path: Set<int>,
    depth: int,
    stack: Seq<int>,
)
    requires
        0 <= depth <= max_depth,
        stack.len() == depth,
        forall|x: int| path.contains(x) <==> stack.contains(x),
        is_reference_walk(cells, stack.push(idx)),
    ensures
        dag_visit(cells, max_depth, idx, visited, path, depth) == Err::<Set<int>, BocError>(
            BocError::CycleDetected,
        ) ==> exists|w: Seq<int>|
            w.len() > 0 && w[0] == stack.push(idx)[0] && is_reference_walk(cells, w)
                && #[trigger] has_repeat(w),
        dag_visit(cells, max_depth, idx, visited, path, depth) == Err::<Set<int>, BocError>(
            BocError::MaxDepthExceeded,
        ) ==> exists|w: Seq<int>|
            w.len() == max_depth + 2 && w[0] == stack.push(idx)[0] && #[trigger] is_reference_walk(
                cells,
                w,
            ),
    decreases max_depth - depth, 1int, 0int,
{
    let w = stack.push(idx);
    if path.contains(idx) {
        let i = choose|i: int| 0 <= i < stack.len() && stack[i] == idx;
        assert(w[i] == w[stack.len() as int]);
        assert(has_repeat(w));
    } else if visited.contains(idx) {
    } else {
        assert forall|x: int| path.insert(idx).contains(x) <==> w.contains(x) by {
            if w.contains(x) && x != idx {
                let i = choose|i: int| 0 <= i < w.len() && w[i] == x;
                assert(stack[i] == x);
            }
            if stack.contains(x) {
                let i = choose|i: int| 0 <= i < stack.len() && stack[i] == x;
                assert(w[i] == x);
            }
            if x == idx {
                assert(w[stack.len() as int] == x);
            }
        }
        lemma_children_error_witness(
            cells,
            max_depth,
            cells[idx].references,
            0,
            visited,
            path.insert(idx),
            depth,
            w,
        );
    }
}

/// The errors of visiting the references from the `k`th on of the last cell
/// of `stack`, a walk from the root whose cells make up the path (see
/// `lemma_visit_error_witness`).
proof fn lemma_children_error_witness(
    cells: Seq<CellView>,
    max_depth: int,
    refs: Seq<ReferenceView>,
    k: int,
    visited: Set<int>,
    path: Set<int>,
    depth: int,
    stack: Seq<int>,
)
    requires
        0 <= k,
        0 <= depth <= max_depth,
        stack.len() == depth + 1,
        refs == cells[stack.last()].references,
        forall|x: int| path.contains(x) <==> stack.contains(x),
        is_reference_walk(cells, stack),
    ensures
        dag_children(cells, max_depth, refs, k, visited, path, depth) == Err::<Set<int>, BocError>(
            BocError::CycleDetected,
        ) ==> exists|w: Seq<int>|
            w.len() > 0 && w[0] == stack[0] && is_reference_walk(cells, w) && #[trigger] has_repeat(w),
        dag_children(cells, max_depth, refs, k, visited, path, depth) == Err::<Set<int>, BocError>(
            BocError::MaxDepthExceeded,
        ) ==> exists|w: Seq<int>|
            w.len() == max_depth + 2 && w[0] == stack[0] && #[trigger] is_reference_walk(cells, w),
    decreases max_depth - depth, 0int, refs.len() - k,
{
    if k >= refs.len() {
    } else if depth >= max_depth {
        lemma_walk_push(cells, stack, k);
        let w = stack.push(refs[k].cell_index as int);
        assert(w[0] == stack[0]);
        assert(is_reference_walk(cells, w));
    } else {
        let c = refs[k].cell_index as int;
        lemma_walk_push(cells, stack, k);
        assert(stack.push(c)[0] == stack[0]);
        lemma_visit_error_witness(cells, max_depth, c, visited, path, depth + 1, stack);
        match dag_visit(cells, max_depth, c, visited, path, depth + 1) {
            Err(e) => {},
            Ok(v) => {
                lemma_children_error_witness(cells, max_depth, refs, k + 1, v, path, depth, stack);
            },
        }
    }
}

/// The errors of visiting the roots from the `k`th on (see
/// `lemma_visit_error_witness`), each walk starting at a root.
proof fn lemma_roots_error_witness(
    b: BocView,
    max_depth: int,
    k: int,
    visited: Set<int>,
)
    requires
        0 <= k,
        0 <= max_depth,
    ensures
        dag_roots(b.cells, max_depth, b.roots, k, visited) == Err::<Set<int>, BocError>(
            BocError::CycleDetected,
        ) ==> exists|w: Seq<int>|
            starts_at_root(b, w) && is_reference_walk(b.cells, w) && #[trigger] has_repeat(w),
        dag_roots(b.cells, max_depth, b.roots, k, visited) == Err::<Set<int>, BocError>(
            BocError::MaxDepthExceeded,
        ) ==> exists|w: Seq<int>|
            w.len() == max_depth + 2 && starts_at_root(b, w) && #[trigger] is_reference_walk(b.cells, w),
    decreases b.roots.len() - k,
{
    if k < b.roots.len() {
        let r = b.roots[k] as int;
        let stack = Seq::<int>::empty();
        assert(stack.push(r)[0] == r);
        assert(is_reference_walk(b.cells, stack.push(r)));
        lemma_visit_error_witness(b.cells, max_depth, r, visited, Set::empty(), 0, stack);
        match dag_visit(b.cells, max_depth, r, visited, Set::empty(), 0) {
            Err(e) => {
                if e == BocError::CycleDetected {
                    let w = choose|w: Seq<int>|
                        w.len() > 0 && w[0] == stack.push(r)[0] && is_reference_walk(b.cells, w)
                            && #[trigger] has_repeat(w);
                    assert(b.roots[k] as int == w[0]);
                    assert(starts_at_root(b, w));
                }
                if e == BocError::MaxDepthExceeded {
                    let w = choose|w: Seq<int>|
                        w.len() == max_depth + 2 && w[0] == stack.push(r)[0]
                            && #[trigger] is_reference_walk(b.cells, w);
                    assert(b.roots[k] as int == w[0]);
                    assert(starts_at_root(b, w));
                }
            },
            Ok(v) => {
                lemma_roots_error_witness(b, max_depth, k + 1, v);
            },
        }
    }
}

/// The per-cell checks never report a cycle or an excess depth.
proof fn lemma_cells_check_not_dag(cells: Seq<CellView>, k: int)
    ensures
        cells_check(cells, k) != Err::<(), BocError>(BocError::CycleDetected),
        cells_check(cells, k) != Err::<(), BocError>(BocError::MaxDepthExceeded),
    decreases cells.len() - k,
{
    if 0 <= k < cells.len() {
        lemma_cells_check_not_dag(cells, k + 1);
    }
}

/// The root checks never report a cycle or an excess depth.
proof fn lemma_roots_check_not_dag(roots: Seq<usize>, n: int, k: int)
    ensures
        roots_check(roots, n, k) != Err::<(), BocError>(BocError::CycleDetected),
        roots_check(roots, n, k) != Err::<(), BocError>(BocError::MaxDepthExceeded),
    decreases roots.len() - k,
{
    if 0 <= k < roots.len() {
        lemma_roots_check_not_dag(roots, n, k + 1);
    }
}

/// A bag that passes verification is within its limits and names only cells
/// it holds: no more cells than allowed, some root, a bit total within the
/// limit, every reference and every root in range.
pub proof fn lemma_verified_bag_is_well_formed(
    max_cell_count: int,
    max_bits_size: int,
    max_depth: int,
    b: BocView,
)
    requires
        verify_boc_result(max_cell_count, max_bits_size, max_depth, b) is Ok,
    ensures
        b.cells.len() <= max_cell_count,
        b.roots.len() > 0,
        total_bits(b.cells, b.cells.len() as int) <= max_bits_size,
        references_in_bounds(b.cells),
        forall|j: int| 0 <= j < b.roots.len() ==> #[trigger] b.roots[j] < b.cells.len(),
{
    lemma_cells_check_ok(b.cells, 0);
    lemma_roots_check_ok(b.roots, b.cells.len() as int, 0);
}

/// A bag refused for a cycle holds one: some walk along references from a
/// root passes through a cell twice.
pub proof fn lemma_cycle_report_is_sound(
    max_cell_count: int,
    max_bits_size: int,
    max_depth: int,
    b: BocView,
)
    requires
        0 <= max_depth,
        verify_boc_result(max_cell_count, max_bits_size, max_depth, b) == Err::<(), BocError>(
            BocError::CycleDetected,
        ),
    ensures
        exists|w: Seq<int>| starts_at_root(b, w) && is_reference_walk(b.cells, w) && #[trigger] has_repeat(w),
{
    lemma_cells_check_not_dag(b.cells, 0);
    lemma_roots_check_not_dag(b.roots, b.cells.len() as int, 0);
    lemma_roots_error_witness(b, max_depth, 0, Set::empty());
}

/// A bag refused for its depth holds a walk along references from a root
/// through `max_depth + 2` cells.
pub proof fn lemma_depth_report_is_sound(
    max_cell_count: int,
    max_bits_size: int,
    max_depth: int,
    b: BocView,
)
    requires
        0 <= max_depth,
        verify_boc_result(max_cell_count, max_bits_size, max_depth, b) == Err::<(), BocError>(
            BocError::MaxDepthExceeded,
        ),
    ensures
        exists|w: Seq<int>|
            w.len() == max_depth + 2 && starts_at_root(b, w) && #[trigger] is_reference_walk(b.cells, w),
{
    lemma_cells_check_not_dag(b.cells, 0);
    lemma_roots_check_not_dag(b.roots, b.cells.len() as int, 0);
    lemma_roots_error_witness(b, max_depth, 0, Set::empty());
}

impl VerifyBOC {
    /// Verifies a bag of cells (see `verify_boc_result`).
    #[verifier::loop_isolation(false)]
    pub fn verify_boc(&self, boc: &BOC) -> (r: Result<(), BocError>)
        ensures
            r == verify_boc_result(
                self@.0 as int,
                self@.1 as int,
                self@.2 as int,
                boc@,
            ),
    {
        self.verify_structure(boc)?;
        let mut i: usize = 0;
        while i < boc.cells.len()
            invariant
                i <= boc@.cells.len(),
                boc@.cells.len() == boc.cells@.len(),
                cells_check(boc@.cells, 0) == cells_check(boc@.cells, i as int),
            decreases boc@.cells.len() - i,
        {
            assert(boc@.cells[i as int] == boc.cells@[i as int]@);
            match self.verify_cell(&boc.cells[i], i, boc) {
                Err(e) => {
                    return Err(e);
                },
                Ok(()) => {},
            }
            i = i + 1;
        }
        proof {
            lemma_cells_check_ok(boc@.cells, 0);
        }
        self.verify_roots(boc)?;
        proof {
            lemma_roots_check_ok(boc@.roots, boc@.cells.len() as int, 0);
        }
        self.verify_dag(boc)
    }

    #[verifier::loop_isolation(false)]
    fn verify_structure(&self, boc: &BOC) -> (r: Result<(), BocError>)
        ensures
            r == (if boc@.cells.len() > self@.0 {
                Err::<(), BocError>(BocError::TooManyCells)
            } else if boc@.roots.len() == 0 {
                Err(BocError::NoRoots)
            } else if total_bits(boc@.cells, boc@.cells.len() as int) > self@.1 {
                Err(BocError::TotalSizeTooLarge)
            } else {
                Ok(())
            }),
    {
        if boc.cells.len() > self.max_cell_count {
            return Err(BocError::TooManyCells);
        }
        if boc.roots.len() == 0 {
            return Err(BocError::NoRoots);
        }
        let mut total: usize = 0;
        let mut i: usize = 0;
        while i < boc.cells.len()
            invariant
                i <= boc@.cells.len(),
                boc@.cells.len() == boc.cells@.len(),
                total == total_bits(boc@.cells, i as int),
                total <= self.max_bits_size,
            decreases boc@.cells.len() - i,
        {
            assert(boc@.cells[i as int] == boc.cells@[i as int]@);
            let bits = boc.cells[i].bit_length();
            if bits > self.max_bits_size - total {
                assert(total_bits(boc@.cells, i + 1) == total + bits);
                proof {
                    lemma_total_bits_monotonic(boc@.cells, i + 1, boc@.cells.len() as int);
                }
                return Err(BocError::TotalSizeTooLarge);
            }
            total = total + bits;
            i = i + 1;
        }
        Ok(())
    }

    #[verifier::loop_isolation(false)]
    fn verify_cell(&self, cell: &Cell, index: usize, boc: &BOC) -> (r: Result<(), BocError>)
        ensures
            r == cell_check(cell@, index, boc@.cells.len() as int),
    {
        let data = cell.data();
        if data.len() > MAX_BYTES {
            return Err(BocError::CellDataTooLarge);
        }
        let refs = cell.references();
        if refs.len() > MAX_REFERENCES {
            return Err(BocError::TooManyReferences);
        }
        let n = boc.cells.len();
        assert(cell@.references.len() == refs@.len());
        let mut k: usize = 0;
        while k < refs.len()
            invariant
                k <= refs@.len(),
                refs@.map_values(|x: CellReference| x@) == cell@.references,
                n == boc@.cells.len(),
                first_invalid_reference(cell@.references, n as int, 0) == first_invalid_reference(
                    cell@.references,
                    n as int,
                    k as int,
                ),
            decreases refs@.len() - k,
        {
            assert(cell@.references[k as int] == refs@[k as int]@);
            assert(cell@.references[k as int].cell_index == refs@[k as int].cell_index);
            if refs[k].cell_index >= n {
                assert(first_invalid_reference(cell@.references, n as int, k as int) == Some(
                    refs@[k as int].cell_index,
                ));
                return Err(BocError::InvalidReference { from: index, to: refs[k].cell_index });
            }
            k = k + 1;
        }
        match cell.cell_type() {
            CellType::MerkleProof => {
                if !cell.verify_merkle_hash() {
                    return Err(BocError::InvalidMerkleProof);
                }
            },
            CellType::PrunedBranch => {
                if refs.len() > 0 {
                    return Err(BocError::InvalidPrunedBranch);
                }
            },
            _ => {},
        }
        Ok(())
    }

    fn verify_roots(&self, boc: &BOC) -> (r: Result<(), BocError>)
        ensures
            r == roots_check(boc@.roots, boc@.cells.len() as int, 0),
    {
        let mut k: usize = 0;
        while k < boc.roots.len()
            invariant
                k <= boc@.roots.len(),
                roots_check(boc@.roots, boc@.cells.len() as int, 0) == roots_check(
                    boc@.roots,
                    boc@.cells.len() as int,
                    k as int,
                ),
            decreases boc@.roots.len() - k,
        {
            if boc.roots[k] >= boc.cells.len() {
                return Err(BocError::InvalidRoot(boc.roots[k]));
            }
            k = k + 1;
        }
        Ok(())
    }

    fn verify_dag(&self, boc: &BOC) -> (r: Result<(), BocError>)
        requires
            references_in_bounds(boc@.cells),
            forall|j: int| 0 <= j < boc@.roots.len() ==> #[trigger] boc@.roots[j] < boc@.cells.len(),
        ensures
            r == (match dag_roots(boc@.cells, self@.2 as int, boc@.roots, 0, Set::empty()) {
                Ok(_) => Ok::<(), BocError>(()),
                Err(e) => Err(e),
            }),
    {
        let n = boc.cells.len();
        let mut visited: Vec<bool> = Vec::new();
        let mut path: Vec<bool> = Vec::new();
        let mut j: usize = 0;
        while j < n
            invariant
                j <= n,
                n == boc@.cells.len(),
                visited@.len() == j,
                path@.len() == j,
                visited@ =~= Seq::new(j as nat, |t: int| false),
                path@ =~= Seq::new(j as nat, |t: int| false),
            decreases n - j,
        {
            visited.push(false);
            path.push(false);
            j = j + 1;
        }
        assert(flag_set(visited@) =~= Set::<int>::empty());
        assert(flag_set(path@) =~= Set::<int>::empty());
        let mut k: usize = 0;
        while k < boc.roots.len()
            invariant
                k <= boc@.roots.len(),
                n == boc@.cells.len(),
                visited@.len() == n,
                path@.len() == n,
                flag_set(path@) =~= Set::<int>::empty(),
                references_in_bounds(boc@.cells),
                forall|t: int| 0 <= t < boc@.roots.len() ==> #[trigger] boc@.roots[t] < boc@.cells.len(),
                dag_roots(boc@.cells, self@.2 as int, boc@.roots, 0, Set::empty()) == dag_roots(
                    boc@.cells,
                    self@.2 as int,
                    boc@.roots,
                    k as int,
                    flag_set(visited@),
                ),
            decreases boc@.roots.len() - k,
        {
            let root = boc.roots[k];
            assert(boc@.roots[k as int] == root);
            self.check_cycle(root, &mut visited, &mut path, boc, 0)?;
            k = k + 1;
        }
        Ok(())
    }

    fn check_cycle(
        &self,
        cell_idx: usize,
        visited: &mut Vec<bool>,
        path: &mut Vec<bool>,
        boc: &BOC,
        depth: usize,
    ) -> (r: Result<(), BocError>)
        requires
            cell_idx < boc@.cells.len(),
            old(visited)@.len() == boc@.cells.len(),
            old(path)@.len() == boc@.cells.len(),
            references_in_bounds(boc@.cells),
            depth <= self@.2,
        ensures
            final(visited)@.len() == old(visited)@.len(),
            final(path)@.len() == old(path)@.len(),
            match dag_visit(
                boc@.cells,
                self@.2 as int,
                cell_idx as int,
                flag_set(old(visited)@),
                flag_set(old(path)@),
                depth as int,
            ) {
                Ok(s) => r is Ok && flag_set(final(visited)@) == s && final(path)@ == old(path)@,
                Err(e) => r == Err::<(), BocError>(e),
            },
        decreases self@.2 - depth,
    {
        if depth > self.max_depth {
            return Err(BocError::MaxDepthExceeded);
        }
        if path[cell_idx] {
            assert(flag_set(old(path)@).contains(cell_idx as int));
            return Err(BocError::CycleDetected);
        }
        if visited[cell_idx] {
            assert(flag_set(old(visited)@).contains(cell_idx as int));
            return Ok(());
        }
        assert(!flag_set(old(path)@).contains(cell_idx as int));
        assert(!flag_set(old(visited)@).contains(cell_idx as int));
        path.set(cell_idx, true);
        assert(flag_set(path@) =~= flag_set(old(path)@).insert(cell_idx as int));
        let ghost cells = boc@.cells;
        let ghost p1 = flag_set(path@);
        let ghost vis0 = flag_set(visited@);
        let refs = boc.cells[cell_idx].references();
        let ghost crefs = cells[cell_idx as int].references;
        assert(crefs == boc.cells@[cell_idx as int]@.references);
        let mut k: usize = 0;
        while k < refs.len()
            invariant
                k <= refs@.len(),
                refs@.map_values(|x: CellReference| x@) == crefs,
                cells == boc@.cells,
                crefs == cells[cell_idx as int].references,
                cell_idx < cells.len(),
                cell_idx < old(path)@.len(),
                vis0 == flag_set(old(visited)@),
                p1 == flag_set(old(path)@).insert(cell_idx as int),
                !flag_set(old(path)@).contains(cell_idx as int),
                !flag_set(old(visited)@).contains(cell_idx as int),
                old(visited)@.len() == cells.len(),
                old(path)@.len() == cells.len(),
                path@ == old(path)@.update(cell_idx as int, true),
                p1 == flag_set(path@),
                visited@.len() == cells.len(),
                path@.len() == cells.len(),
                references_in_bounds(cells),
                depth <= self@.2,
                dag_children(cells, self@.2 as int, crefs, 0, vis0, p1, depth as int)
                    == dag_children(
                    cells,
                    self@.2 as int,
                    crefs,
                    k as int,
                    flag_set(visited@),
                    p1,
                    depth as int,
                ),
            decreases refs@.len() - k,
        {
            if depth >= self.max_depth {
                return Err(BocError::MaxDepthExceeded);
            }
            let child = refs[k].cell_index;
            assert(crefs[k as int] == refs@[k as int]@);
            assert(cells[cell_idx as int].references[k as int].cell_index < cells.len());
            let ghost before = flag_set(visited@);
            match self.check_cycle(child, visited, path, boc, depth + 1) {
                Err(e) => {
                    return Err(e);
                },
                Ok(()) => {},
            }
            k = k + 1;
        }
        path.set(cell_idx, false);
        assert(path@ =~= old(path)@);
        let ghost after = flag_set(visited@);
        visited.set(cell_idx, true);
        assert(flag_set(visited@) =~= after.insert(cell_idx as int));
        Ok(())
    }
}

} // verus!
