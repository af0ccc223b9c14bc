//! The decisions of the response checks: once the bag of responses holds
//! enough cells, the cells of 32 bytes name the proofs to verify.

use vstd::prelude::*;
use crate::types::boc::Cell;

verus! {

/// A span of time that can be read in milliseconds.
pub trait Duration {
    fn as_millis(&self) -> u64;
}

/// Whether a bag of `count` cells reaches the threshold of responses.
pub fn response_check_due(count: usize, response_threshold: u64) -> (r: bool)
    ensures
        r == (count >= response_threshold),
{
    count as u64 >= response_threshold
}

/// The proof identifiers that the responses name: the data of each cell of
/// exactly 32 bytes, in order.
pub open spec fn response_ids(cells: Seq<Cell>) -> Seq<Seq<u8>>
    decreases cells.len(),
{
    if cells.len() == 0 {
        Seq::empty()
    } else if cells.last().data@.len() == 32 {
        response_ids(cells.drop_last()).push(cells.last().data@)
    } else {
        response_ids(cells.drop_last())
    }
}

/// Collects the proof identifiers that the responses name (see
/// `response_ids`).
pub fn collect_responses(cells: &Vec<Cell>) -> (r: Vec<[u8; 32]>)
    ensures
        r@.map_values(|a: [u8; 32]| a@) == response_ids(cells@),
{
    let mut out: Vec<[u8; 32]> = Vec::new();
    let mut i: usize = 0;
    while i < cells.len()
        invariant
            i <= cells@.len(),
            out@.map_values(|a: [u8; 32]| a@) == response_ids(cells@.take(i as int)),
        decreases cells@.len() - i,
    {
        proof {
            let t = cells@.take(i + 1);
            assert(t.drop_last() =~= cells@.take(i as int));
            assert(t.last() == cells@[i as int]);
        }
        let data = &cells[i].data;
        if data.len() == 32 {
            let ghost before = out@;
            let mut id = [0u8; 32];
            let mut j: usize = 0;
            while j < 32
                invariant
                    j <= 32,
                    data@.len() == 32,
                    forall|k: int| 0 <= k < j ==> id@[k] == data@[k],
                decreases 32 - j,
            {
                id[j] = data[j];
                j = j + 1;
            }
            assert(id@ =~= data@);
            out.push(id);
            assert(out@.map_values(|a: [u8; 32]| a@) =~= before.map_values(|a: [u8; 32]| a@).push(
                data@,
            ));
        }
        i = i + 1;
    }
    assert(cells@.take(cells@.len() as int) =~= cells@);
    out
}

} // verus!
