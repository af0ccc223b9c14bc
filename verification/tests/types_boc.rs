use overpass::error::{SystemError, SystemErrorType};
use overpass::types::boc::{get_refs, hash, hash_pair, Cell, CellType, BOC};

#[test]
fn test_cell_creation() {
    let data = vec![1, 2, 3];
    let refs = vec![0, 1];
    let hash = [0u8; 32];

    let cell = Cell::new(data.clone(), refs.clone(), CellType::Ordinary, hash, None);

    assert_eq!(cell.data, data);
    assert_eq!(cell.references, refs);
    assert!(matches!(cell.cell_type, CellType::Ordinary));
    assert_eq!(cell.merkle_hash, hash);
    assert!(cell.proof.is_none());
}

#[test]
fn test_cell_with_data() {
    let data = vec![1, 2, 3];
    let mut cell = Cell::with_data(data.clone());

    assert_eq!(cell.data, data);
    assert!(cell.references.is_empty());
    assert!(matches!(cell.cell_type, CellType::Ordinary));

    cell.update_merkle_hash();
    assert_ne!(cell.merkle_hash, [0u8; 32]);
}

#[test]
fn test_boc_operations() {
    let mut boc = BOC::new();
    assert!(boc.is_empty());

    let cell1 = Cell::with_data(vec![1, 2, 3]);

    let idx1 = boc.add_cell(cell1);
    boc.add_root(idx1);

    assert_eq!(boc.cell_count(), 2);
    assert_eq!(boc.root_count(), 1);

    let root_cell = boc.get_root_cell().unwrap();
    assert_eq!(root_cell.data, vec![1, 2, 3]);
}

#[test]
fn test_boc_clear() {
    let mut boc = BOC::new();
    let cell = Cell::with_data(vec![1, 2, 3]);
    let idx = boc.add_cell(cell);
    boc.add_root(idx);

    assert!(!boc.is_empty());
    boc.clear();
    assert!(boc.is_empty());
    assert_eq!(boc.root_count(), 0);
}

#[test]
fn test_boc_set_data() {
    let mut boc = BOC::new();
    let cell = Cell::with_data(vec![1, 2, 3]);
    let idx = boc.add_cell(cell);
    boc.add_root(idx);

    let new_data = vec![7, 8, 9];
    boc.set_data(&new_data).unwrap();

    let root_cell = boc.get_root_cell().unwrap();
    assert_eq!(root_cell.data, new_data);
}

#[test]
fn test_boc_set_merkle_root() {
    let mut boc = BOC::new();
    let cell = Cell::with_data(vec![1, 2, 3]);
    let idx = boc.add_cell(cell);
    boc.add_root(idx);

    let new_merkle_root = [42u8; 32];
    boc.set_merkle_root(new_merkle_root).unwrap();

    let root_cell = boc.get_root_cell().unwrap();
    assert_eq!(root_cell.merkle_hash, new_merkle_root);
}

#[test]
fn test_boc_set_proof() {
    let mut boc = BOC::new();
    let cell = Cell::with_data(vec![1, 2, 3]);
    let idx = boc.add_cell(cell);
    boc.add_root(idx);

    let proof_data = vec![10, 20, 30];
    boc.set_proof(&proof_data).unwrap();

    let root_cell = boc.get_root_cell().unwrap();
    assert_eq!(root_cell.proof.as_ref().unwrap(), &proof_data);
}

#[test]
fn test_boc_root_hash() {
    let mut boc = BOC::new();
    let mut cell = Cell::with_data(vec![1, 2, 3]);
    cell.update_merkle_hash();
    let idx = boc.add_cell(cell);
    boc.add_root(idx);

    let root_hash = boc.root_hash().unwrap();
    assert_eq!(root_hash, boc.get_root_cell().unwrap().merkle_hash);
}

#[test]
fn test_boc_no_root_cell_error() {
    let mut boc = BOC::new();

    let result = boc.set_data(&[1, 2, 3]);
    assert!(matches!(
        result,
        Err(SystemError {
            error_type: SystemErrorType::NoRootCell,
            ..
        })
    ));
}

#[test]
fn test_system_error_display() {
    let error = SystemError::new(
        SystemErrorType::InvalidTransaction,
        "Transaction validation failed".to_string(),
    );
    assert_eq!(
        error.to_string(),
        "Invalid transaction: Transaction validation failed"
    );
}

#[test]
fn get_refs_keeps_first_occurrences_in_order() {
    let cells = vec![
        Cell::new(vec![], vec![3, 1, 3], CellType::Ordinary, [0u8; 32], None),
        Cell::new(vec![], vec![], CellType::Ordinary, [0u8; 32], None),
        Cell::new(vec![], vec![2, 1, 4], CellType::Ordinary, [0u8; 32], None),
    ];
    assert_eq!(get_refs(&cells), vec![3, 1, 2, 4]);
    assert_eq!(get_refs(&[]), Vec::<usize>::new());
}

#[test]
fn hashes_are_sha256() {
    // SHA-256 of the empty input and of "abc"
    assert_eq!(
        hash(&[]),
        [
            0xe3, 0xb0, 0xc4, 0x42, 0x98, 0xfc, 0x1c, 0x14, 0x9a, 0xfb, 0xf4, 0xc8, 0x99, 0x6f,
            0xb9, 0x24, 0x27, 0xae, 0x41, 0xe4, 0x64, 0x9b, 0x93, 0x4c, 0xa4, 0x95, 0x99, 0x1b,
            0x78, 0x52, 0xb8, 0x55
        ]
    );
    assert_eq!(hash(b"abc")[0..4], [0xba, 0x78, 0x16, 0xbf]);
    assert_eq!(hash_pair(b"ab", b"c"), hash(b"abc"));
}

#[test]
fn root_operations_fail_without_root() {
    let mut boc = BOC::new();
    boc.add_cell(Cell::with_data(vec![1]));
    assert!(boc.get_root_cell().is_none());
    assert!(matches!(
        boc.set_merkle_root([1u8; 32]),
        Err(SystemError { error_type: SystemErrorType::InvalidOperation, .. })
    ));
    assert!(matches!(
        boc.set_proof(&[1]),
        Err(SystemError { error_type: SystemErrorType::NoRootCell, .. })
    ));
    assert!(matches!(
        boc.root_hash(),
        Err(SystemError { error_type: SystemErrorType::NoRootCell, .. })
    ));
}
