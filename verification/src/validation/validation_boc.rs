//! Validation of a serialized bag of cells: a non-zero operation code, a
//! non-empty payload and Merkle root, and a payload made of valid cell-type
//! bytes.

use vstd::prelude::*;
use crate::validation::validation_error::ValidationError;

verus! {

/// The cell types a serialized bag may hold, one byte each.
#[derive(Clone, Copy, Debug, PartialEq, Eq, Structural)]
pub enum CellType {
    Ordinary,
    Pruned,
    MerkleProof,
    MerkleUpdate,
}

/// The cell type a byte stands for: 0 to 3 in declaration order.
pub open spec fn cell_type_of_byte(b: u8) -> Option<CellType> {
    match b {
        0 => Some(CellType::Ordinary),
        1 => Some(CellType::Pruned),
        2 => Some(CellType::MerkleProof),
        3 => Some(CellType::MerkleUpdate),
        _ => None,
    }
}

/// Whether every byte of the payload stands for a cell type.
pub open spec fn all_cell_types(data: Seq<u8>) -> bool {
    forall|i: int| 0 <= i < data.len() ==> #[trigger] cell_type_of_byte(data[i]) is Some
}

/// The outcome of validating a bag with the given operation code, payload and
/// Merkle root.
pub open spec fn boc_validation(op_code: u8, data: Seq<u8>, merkle_root: Seq<u8>) -> Result<(), ValidationError> {
    if op_code == 0 || data.len() == 0 || merkle_root.len() == 0 {
        Err(ValidationError::InvalidBoc)
    } else if !all_cell_types(data) {
        Err(ValidationError::InvalidCellType)
    } else {
        Ok(())
    }
}

/// A bag passes validation exactly when its operation code is non-zero, its
/// payload and root are non-empty, and every byte of the payload, the last
/// one included, is at most 3; a bag refused for its payload holds a byte
/// above 3.
pub proof fn lemma_boc_validation_checks_every_byte(op_code: u8, data: Seq<u8>, merkle_root: Seq<u8>)
    ensures
        boc_validation(op_code, data, merkle_root) is Ok <==> (op_code != 0 && data.len() > 0
            && merkle_root.len() > 0 && forall|i: int| 0 <= i < data.len() ==> #[trigger] data[i] <= 3),
        boc_validation(op_code, data, merkle_root) == Err::<(), ValidationError>(
            ValidationError::InvalidCellType,
        ) ==> exists|i: int| 0 <= i < data.len() && #[trigger] data[i] > 3,
{
    if forall|i: int| 0 <= i < data.len() ==> #[trigger] data[i] <= 3 {
        assert forall|i: int| 0 <= i < data.len() implies #[trigger] cell_type_of_byte(data[i]) is Some by {
            assert(data[i] <= 3);
        }
    }
    if all_cell_types(data) {
        assert forall|i: int| 0 <= i < data.len() implies #[trigger] data[i] <= 3 by {
            assert(cell_type_of_byte(data[i]) is Some);
        }
    } else {
        let i = choose|i: int| 0 <= i < data.len() && !(#[trigger] cell_type_of_byte(data[i]) is Some);
        assert(data[i] > 3);
    }
}

/// Validates a bag: `InvalidBoc` for a zero operation code or an empty
/// payload or root, `InvalidCellType` for a payload byte that is no cell
/// type.
pub fn validate_boc(op_code: u8, data: &[u8], merkle_root: &[u8]) -> (r: Result<(), ValidationError>)
    ensures
        r == boc_validation(op_code, data@, merkle_root@),
{
    if op_code == 0 || data.len() == 0 || merkle_root.len() == 0 {
        return Err(ValidationError::InvalidBoc);
    }
    validate_cells(data)
}

/// Validates each cell-type byte of the payload in turn.
fn validate_cells(data: &[u8]) -> (r: Result<(), ValidationError>)
    ensures
        all_cell_types(data@) ==> r == Ok::<(), ValidationError>(()),
        !all_cell_types(data@) ==> r == Err::<(), ValidationError>(ValidationError::InvalidCellType),
{
    let mut slice_data = data;
    while slice_data.len() > 0
        invariant
            data@.len() >= slice_data@.len(),
            slice_data@ == data@.subrange(data@.len() - slice_data@.len(), data@.len() as int),
            forall|i: int|
                0 <= i < data@.len() - slice_data@.len() ==> #[trigger] cell_type_of_byte(data@[i]) is Some,
        decreases slice_data@.len(),
    {
        let ghost start = data@.len() - slice_data@.len();
        let (cell_type, remaining_data) = match deserialize_cell_type(slice_data) {
            Ok(x) => x,
            Err(e) => {
                assert(data@[start] == slice_data@[0]);
                return Err(e);
            },
        };
        assert(data@[start] == slice_data@[0]);
        match validate_cell_type(cell_type) {
            Ok(()) => {},
            Err(e) => return Err(e),
        }
        slice_data = remaining_data;
    }
    Ok(())
}

/// Accepts each of the cell types.
fn validate_cell_type(cell_type: CellType) -> (r: Result<(), ValidationError>)
    ensures
        r is Ok,
{
    match cell_type {
        CellType::Ordinary | CellType::Pruned | CellType::MerkleProof | CellType::MerkleUpdate => Ok(()),
    }
}

/// Reads the cell type of the first byte and gives the rest of the payload;
/// `InvalidCellType` when the byte is no cell type.
fn deserialize_cell_type(data: &[u8]) -> (r: Result<(CellType, &[u8]), ValidationError>)
    requires
        data@.len() > 0,
    ensures
        match cell_type_of_byte(data@[0]) {
            Some(t) => r matches Ok((c, rest)) && c == t && rest@ == data@.subrange(1, data@.len() as int),
            None => r matches Err(e) && e == ValidationError::InvalidCellType,
        },
{
    let cell_type = match data[0] {
        0 => CellType::Ordinary,
        1 => CellType::Pruned,
        2 => CellType::MerkleProof,
        3 => CellType::MerkleUpdate,
        _ => return Err(ValidationError::InvalidCellType),
    };
    let remaining_data = vstd::slice::slice_subrange(data, 1, data.len());
    Ok((cell_type, remaining_data))
}

} // verus!
