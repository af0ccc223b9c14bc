//! Parsing of a bag of cells from bytes: cell count, cells, root count,
//! root indices, with counts and indices as little-endian `u32`.

use vstd::prelude::*;
use crate::bytes::{lemma_read_u32_at_encoding, read_u32_at, read_u32_le, u32_le};
use crate::error::CellError;
use crate::state::boc::builder::{cells_encoding, roots_encoding};
use crate::state::boc::cell::{
    Cell,
    CellView,
    cell_decode,
    cell_encoding,
    cell_view_wf,
    lemma_cell_encoding_roundtrip,
    references_fit_u32,
};
use crate::types::ovp_types::{BOC, BocView};

verus! {

/// Decoding of `n` cells one after the other from `pos`: the cells and the
/// position after them, or the first decoding error.
pub open spec fn decode_cells(b: Seq<u8>, pos: int, n: nat) -> Result<(Seq<CellView>, int), CellError>
    decreases n,
{
    if n == 0 {
        Ok((Seq::empty(), pos))
    } else {
        match decode_cells(b, pos, (n - 1) as nat) {
            Err(e) => Err(e),
            Ok((cells, p)) => match cell_decode(b, p) {
                Err(e) => Err(e),
                Ok((c, q)) => Ok((cells.push(c), q)),
            },
        }
    }
}

/// Decoding of `n` little-endian `u32` values from `pos`.
pub open spec fn decode_indices(b: Seq<u8>, pos: int, n: nat) -> Option<Seq<usize>>
    decreases n,
{
    if n == 0 {
        Some(Seq::empty())
    } else {
        match decode_indices(b, pos, (n - 1) as nat) {
            None => None,
            Some(xs) => match read_u32_at(b, pos + 4 * (n - 1)) {
                None => None,
                Some(x) => Some(xs.push(x as usize)),
            },
        }
    }
}

/// Once decoding `m` cells fails, decoding more fails the same way.
pub proof fn lemma_decode_cells_err(b: Seq<u8>, pos: int, m: nat, n: nat)
    requires
        m <= n,
        decode_cells(b, pos, m) is Err,
    ensures
        decode_cells(b, pos, n) == decode_cells(b, pos, m),
    decreases n,
{
    if m < n {
        lemma_decode_cells_err(b, pos, m, (n - 1) as nat);
    }
}

/// Once decoding `m` indices fails, decoding more fails too.
pub proof fn lemma_decode_indices_none(b: Seq<u8>, pos: int, m: nat, n: nat)
    requires
        m <= n,
        decode_indices(b, pos, m) is None,
    ensures
        decode_indices(b, pos, n) is None,
    decreases n,
{
    if m < n {
        lemma_decode_indices_none(b, pos, m, (n - 1) as nat);
    }
}

/// The outcome of parsing a bag of cells: `UnexpectedEof` when a count or
/// an index is cut short, the first cell decoding error otherwise.
pub open spec fn parse_result(b: Seq<u8>) -> Result<BocView, CellError> {
    match read_u32_at(b, 0) {
        None => Err(CellError::UnexpectedEof),
        Some(n) => match decode_cells(b, 4, n as nat) {
            Err(e) => Err(e),
            Ok((cells, p)) => match read_u32_at(b, p) {
                None => Err(CellError::UnexpectedEof),
                Some(r) => match decode_indices(b, p + 4, r as nat) {
                    None => Err(CellError::UnexpectedEof),
                    Some(roots) => Ok(BocView { cells, roots }),
                },
            },
        },
    }
}

/// The encoding that the parser reads: cell count, cells, root count, roots.
pub open spec fn parser_encoding(b: BocView) -> Seq<u8> {
    u32_le(b.cells.len() as u32) + cells_encoding(b.cells) + u32_le(b.roots.len() as u32)
        + roots_encoding(b.roots)
}

/// Parses bags of cells.
pub struct BOCParser;

impl BOCParser {
    /// Parses a bag of cells (see `parse_result`).
    #[verifier::loop_isolation(false)]
    pub fn parse(bytes: &[u8]) -> (r: Result<BOC, CellError>)
        ensures
            match parse_result(bytes@) {
                Ok(v) => r matches Ok(b) && b@ == v,
                Err(e) => r is Err && r->Err_0 == e,
            },
    {
        let n = bytes.len();
        let cell_count = Self::read_u32(bytes, 0)?;
        let mut cells: Vec<Cell> = Vec::new();
        let mut pos: usize = 4;
        assert(cells@.map_values(|c: Cell| c@) =~= Seq::<CellView>::empty());
        let mut i: u32 = 0;
        while i < cell_count
            invariant
                i <= cell_count,
                read_u32_at(bytes@, 0) == Some(cell_count),
                decode_cells(bytes@, 4, i as nat) == Ok::<(Seq<CellView>, int), CellError>(
                    (cells@.map_values(|c: Cell| c@), pos as int),
                ),
            decreases cell_count - i,
        {
            match Cell::deserialize(bytes, pos) {
                Err(e) => {
                    proof {
                        lemma_decode_cells_err(bytes@, 4, (i + 1) as nat, cell_count as nat);
                    }
                    return Err(e);
                },
                Ok((c, next)) => {
                    let ghost prev = cells@.map_values(|c: Cell| c@);
                    cells.push(c);
                    assert(cells@.map_values(|c: Cell| c@) =~= prev.push(c@));
                    pos = next;
                },
            }
            i = i + 1;
        }
        let root_count = Self::read_u32(bytes, pos)?;
        let ghost start = pos + 4;
        let mut roots: Vec<usize> = Vec::new();
        let mut k: u32 = 0;
        while k < root_count
            invariant
                k <= root_count,
                read_u32_at(bytes@, pos as int) == Some(root_count),
                start == pos + 4,
                pos + 4 <= bytes@.len(),
                decode_indices(bytes@, start, k as nat) == Some(roots@),
            decreases root_count - k,
        {
            let ku = k as usize;
            if ku > (bytes.len() - (pos + 4)) / 4 {
                assert(4 * ku > bytes.len() - (pos + 4)) by (nonlinear_arith)
                    requires
                        ku > (bytes.len() - (pos + 4)) / 4,
                ;
                proof {
                    lemma_decode_indices_none(bytes@, start, (k + 1) as nat, root_count as nat);
                }
                return Err(CellError::UnexpectedEof);
            }
            assert(4 * ku <= bytes.len() - (pos + 4)) by (nonlinear_arith)
                requires
                    ku <= (bytes.len() - (pos + 4)) / 4,
            ;
            let at = pos + 4 + 4 * ku;
            let idx = match read_u32_le(bytes, at) {
                None => {
                    proof {
                        lemma_decode_indices_none(bytes@, start, (k + 1) as nat, root_count as nat);
                    }
                    return Err(CellError::UnexpectedEof);
                },
                Some(x) => x,
            };
            roots.push(idx as usize);
            k = k + 1;
        }
        Ok(BOC { cells, roots })
    }

    /// Reads the little-endian `u32` at `pos`; `UnexpectedEof` when fewer
    /// than four bytes remain.
    fn read_u32(bytes: &[u8], pos: usize) -> (r: Result<u32, CellError>)
        ensures
            match read_u32_at(bytes@, pos as int) {
                Some(x) => r == Ok::<u32, CellError>(x),
                None => r == Err::<u32, CellError>(CellError::UnexpectedEof),
            },
    {
        match read_u32_le(bytes, pos) {
            Some(x) => Ok(x),
            None => Err(CellError::UnexpectedEof),
        }
    }
}

/// A bag that the parser's encoding represents faithfully: every cell within
/// its bounds and at level 0 (the encoding carries no level), and counts,
/// reference targets and roots within `u32`.
pub open spec fn boc_encodable(b: BocView) -> bool {
    &&& b.cells.len() <= u32::MAX
    &&& b.roots.len() <= u32::MAX
    &&& forall|i: int| 0 <= i < b.cells.len() ==> #[trigger] cell_view_wf(b.cells[i])
    &&& forall|i: int| 0 <= i < b.cells.len() ==> #[trigger] references_fit_u32(b.cells[i].references)
    &&& forall|i: int| 0 <= i < b.cells.len() ==> #[trigger] b.cells[i].level == 0
    &&& forall|j: int| 0 <= j < b.roots.len() ==> #[trigger] b.roots[j] <= u32::MAX
}

/// Decoding the encodings of cells within their bounds and at level 0
/// gives them back.
pub proof fn lemma_decode_cells_encoding(cs: Seq<CellView>, pre: Seq<u8>, post: Seq<u8>)
    requires
        forall|i: int| 0 <= i < cs.len() ==> #[trigger] cell_view_wf(cs[i]),
        forall|i: int| 0 <= i < cs.len() ==> #[trigger] references_fit_u32(cs[i].references),
        forall|i: int| 0 <= i < cs.len() ==> #[trigger] cs[i].level == 0,
    ensures
        decode_cells(pre + cells_encoding(cs) + post, pre.len() as int, cs.len())
            == Ok::<(Seq<CellView>, int), CellError>(
            (cs, (pre.len() + cells_encoding(cs).len()) as int),
        ),
    decreases cs.len(),
{
    if cs.len() > 0 {
        let init = cs.drop_last();
        let last = cs.last();
        assert forall|i: int| 0 <= i < init.len() implies #[trigger] cell_view_wf(init[i]) by {
            assert(init[i] == cs[i]);
        }
        assert forall|i: int| 0 <= i < init.len() implies #[trigger] references_fit_u32(
            init[i].references,
        ) by {
            assert(init[i] == cs[i]);
        }
        assert forall|i: int| 0 <= i < init.len() implies #[trigger] init[i].level == 0 by {
            assert(init[i] == cs[i]);
        }
        let post1 = cell_encoding(last) + post;
        lemma_decode_cells_encoding(init, pre, post1);
        let b = pre + cells_encoding(cs) + post;
        assert(b =~= pre + cells_encoding(init) + post1);
        assert(cell_view_wf(cs[cs.len() - 1]));
        assert(references_fit_u32(cs[cs.len() - 1].references));
        assert(cs[cs.len() - 1].level == 0);
        assert((CellView { level: 0, ..last }) == last);
        lemma_cell_encoding_roundtrip(last, pre + cells_encoding(init), post);
        assert(b =~= (pre + cells_encoding(init)) + cell_encoding(last) + post);
        assert(cells_encoding(cs) == cells_encoding(init) + cell_encoding(last));
        assert(init.push(last) =~= cs);
        let p = (pre.len() + cells_encoding(init).len()) as int;
        assert(decode_cells(b, pre.len() as int, init.len()) == Ok::<(Seq<CellView>, int), CellError>(
            (init, p),
        ));
        assert(cell_decode(b, p) == Ok::<(CellView, int), CellError>(
            (last, (p + cell_encoding(last).len()) as int),
        ));
        assert((cs.len() - 1) as nat == init.len());
    } else {
        assert(cs =~= Seq::<CellView>::empty());
    }
}

/// The encoding of root indices has four bytes per index.
pub proof fn lemma_roots_encoding_len(rs: Seq<usize>)
    ensures
        roots_encoding(rs).len() == 4 * rs.len(),
    decreases rs.len(),
{
    if rs.len() > 0 {
        lemma_roots_encoding_len(rs.drop_last());
    }
}

/// Decoding the encodings of indices within `u32` gives them back.
pub proof fn lemma_decode_indices_encoding(rs: Seq<usize>, pre: Seq<u8>, post: Seq<u8>)
    requires
        forall|j: int| 0 <= j < rs.len() ==> #[trigger] rs[j] <= u32::MAX,
    ensures
        decode_indices(pre + roots_encoding(rs) + post, pre.len() as int, rs.len()) == Some(rs),
    decreases rs.len(),
{
    if rs.len() > 0 {
        let init = rs.drop_last();
        let last = rs.last();
        assert forall|j: int| 0 <= j < init.len() implies #[trigger] init[j] <= u32::MAX by {
            assert(init[j] == rs[j]);
        }
        let post1 = u32_le(last as u32) + post;
        lemma_decode_indices_encoding(init, pre, post1);
        let b = pre + roots_encoding(rs) + post;
        assert(b =~= pre + roots_encoding(init) + post1);
        lemma_roots_encoding_len(init);
        let q = pre.len() + 4 * (rs.len() - 1);
        assert(b.subrange(q, q + 4) =~= u32_le(last as u32));
        lemma_read_u32_at_encoding(b, q, last as u32);
        assert(rs[rs.len() - 1] <= u32::MAX);
        assert(init.push(last) =~= rs);
    }
}

/// Parsing the parser's encoding of a bag gives the bag back.
pub proof fn lemma_parse_roundtrip(b: BocView)
    requires
        boc_encodable(b),
    ensures
        parse_result(parser_encoding(b)) == Ok::<BocView, CellError>(b),
{
    let n = b.cells.len() as u32;
    let r = b.roots.len() as u32;
    let c = cells_encoding(b.cells);
    let e = parser_encoding(b);
    assert(e.subrange(0, 4) =~= u32_le(n));
    lemma_read_u32_at_encoding(e, 0, n);
    lemma_decode_cells_encoding(b.cells, u32_le(n), u32_le(r) + roots_encoding(b.roots));
    assert(e =~= u32_le(n) + c + (u32_le(r) + roots_encoding(b.roots)));
    let p = 4 + c.len() as int;
    assert(e.subrange(p, p + 4) =~= u32_le(r));
    lemma_read_u32_at_encoding(e, p, r);
    lemma_decode_indices_encoding(b.roots, u32_le(n) + c + u32_le(r), Seq::empty());
    assert(e =~= u32_le(n) + c + u32_le(r) + roots_encoding(b.roots) + Seq::<u8>::empty());
}

} // verus!
