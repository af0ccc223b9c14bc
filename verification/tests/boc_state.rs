use overpass::error::CellError;
use overpass::state::boc::builder::Builder;
use overpass::state::boc::cell::Cell;
use overpass::state::boc::parser::BOCParser;
use overpass::state::boc::verifiy_boc::{BocError, VerifyBOC};
use overpass::types::ovp_types::{CellData, CellReference, CellType, BOC};

fn create_test_verifier() -> VerifyBOC {
    VerifyBOC::new(1000, 1_000_000, 256)
}

#[test]
fn test_builder_basic() {
    let mut builder = Builder::new();
    let cell = Cell::new(vec![1, 2, 3], CellType::Ordinary).unwrap();
    let idx = builder.add_cell(cell.duplicate()).unwrap();
    assert_eq!(idx, 0);

    let boc = builder.build(vec![0]).unwrap();
    assert_eq!(boc.cells.len(), 1);
    assert_eq!(boc.roots, vec![0]);
}

#[test]
fn test_builder_duplicate_cells() {
    let mut builder = Builder::new();
    let cell = Cell::new(vec![1, 2, 3], CellType::Ordinary).unwrap();

    let idx1 = builder.add_cell(cell.duplicate()).unwrap();
    let idx2 = builder.add_cell(cell.duplicate()).unwrap();

    assert_eq!(idx1, idx2);
    assert_eq!(builder.cell_count(), 1);
}

#[test]
fn test_builder_serialization() {
    let mut builder = Builder::new();
    let cell = Cell::new(vec![1, 2, 3], CellType::Ordinary).unwrap();
    let idx = builder.add_cell(cell).unwrap();

    let serialized = builder.serialize(vec![idx]).unwrap();
    assert!(!serialized.is_empty());
}

#[test]
fn test_builder_limits() {
    let mut builder = Builder::with_limits(1, 1000, 256);
    let cell1 = Cell::new(vec![1], CellType::Ordinary).unwrap();
    let cell2 = Cell::new(vec![2], CellType::Ordinary).unwrap();

    assert!(builder.add_cell(cell1).is_ok());
    assert!(builder.add_cell(cell2).is_err());
}

#[test]
fn test_serialization_deserialization() {
    let data = vec![1, 2, 3, 4];
    let reference = CellReference {
        cell_index: 0,
        merkle_hash: [0u8; 32],
    };
    let mut cell = Cell::new(data.clone(), CellType::MerkleProof).unwrap();
    cell.add_reference(reference).unwrap();

    let mut serialized_data = Vec::new();
    cell.serialize(&mut serialized_data);

    let (deserialized_cell, _) = Cell::deserialize(&serialized_data, 0).unwrap();

    assert_eq!(cell.data(), deserialized_cell.data());
    assert_eq!(
        cell.references().len(),
        deserialized_cell.references().len()
    );
    assert_eq!(cell.cell_type(), deserialized_cell.cell_type());
    assert_eq!(cell.merkle_hash(), deserialized_cell.merkle_hash());
}

#[test]
fn test_parse_boc() {
    let cell = Cell::new(vec![1, 2, 3], CellType::Ordinary).unwrap();
    let boc = BOC {
        cells: vec![cell],
        roots: vec![0],
    };

    let mut bytes = Vec::new();
    bytes.extend_from_slice(&(1u32).to_le_bytes());
    boc.cells[0].serialize(&mut bytes);
    bytes.extend_from_slice(&(1u32).to_le_bytes());
    bytes.extend_from_slice(&(0u32).to_le_bytes());

    let parsed_boc = BOCParser::parse(&bytes).unwrap();
    assert_eq!(parsed_boc.cells.len(), 1);
    assert_eq!(parsed_boc.roots.len(), 1);
}

#[test]
fn test_valid_boc() {
    let cell = Cell::new(vec![1, 2, 3], CellType::Ordinary).unwrap();
    let boc = BOC {
        cells: vec![cell],
        roots: vec![0],
    };

    let verifier = create_test_verifier();
    assert!(verifier.verify_boc(&boc).is_ok());
}

#[test]
fn test_no_roots() {
    let cell = Cell::new(vec![1, 2, 3], CellType::Ordinary).unwrap();
    let boc = BOC {
        cells: vec![cell],
        roots: vec![],
    };

    let verifier = create_test_verifier();
    assert!(matches!(verifier.verify_boc(&boc), Err(BocError::NoRoots)));
}

#[test]
fn test_invalid_root_reference() {
    let cell = Cell::new(vec![1, 2, 3], CellType::Ordinary).unwrap();
    let boc = BOC {
        cells: vec![cell],
        roots: vec![1],
    };

    let verifier = create_test_verifier();
    assert!(matches!(
        verifier.verify_boc(&boc),
        Err(BocError::InvalidRoot(_))
    ));
}

#[test]
fn test_cycle_detection() {
    let mut cell1 = Cell::new(vec![1], CellType::Ordinary).unwrap();
    let mut cell2 = Cell::new(vec![2], CellType::Ordinary).unwrap();

    cell1
        .add_reference(CellReference {
            cell_index: 1,
            merkle_hash: [0u8; 32],
        })
        .unwrap();

    cell2
        .add_reference(CellReference {
            cell_index: 0,
            merkle_hash: [0u8; 32],
        })
        .unwrap();

    let boc = BOC {
        cells: vec![cell1, cell2],
        roots: vec![0],
    };

    let verifier = create_test_verifier();
    assert!(matches!(
        verifier.verify_boc(&boc),
        Err(BocError::CycleDetected)
    ));
}

#[test]
fn test_max_depth() {
    let mut cells = Vec::new();
    let max_depth = 3;

    for i in 0..max_depth + 2 {
        let mut cell = Cell::new(vec![i as u8], CellType::Ordinary).unwrap();
        if i < max_depth + 1 {
            cell.add_reference(CellReference {
                cell_index: i + 1,
                merkle_hash: [0u8; 32],
            })
            .unwrap();
        }
        cells.push(cell);
    }

    let boc = BOC {
        cells,
        roots: vec![0],
    };

    let verifier = VerifyBOC::new(1000, 1_000_000, max_depth);
    assert!(matches!(
        verifier.verify_boc(&boc),
        Err(BocError::MaxDepthExceeded)
    ));
}

#[test]
fn test_invalid_merkle_proof() {
    let mut cell = Cell::new(vec![1, 2, 3], CellType::MerkleProof).unwrap();
    cell.set_merkle_hash([0u8; 32]);

    let boc = BOC {
        cells: vec![cell],
        roots: vec![0],
    };

    let verifier = create_test_verifier();
    assert!(matches!(
        verifier.verify_boc(&boc),
        Err(BocError::InvalidMerkleProof)
    ));
}

#[test]
fn test_invalid_pruned_branch() {
    let mut cell = Cell::new(vec![1], CellType::PrunedBranch).unwrap();
    cell.add_reference(CellReference {
        cell_index: 0,
        merkle_hash: [0u8; 32],
    })
    .unwrap();

    let boc = BOC {
        cells: vec![cell],
        roots: vec![0],
    };

    let verifier = create_test_verifier();
    assert!(matches!(
        verifier.verify_boc(&boc),
        Err(BocError::InvalidPrunedBranch)
    ));
}

#[test]
fn cell_rejects_oversized_data_and_fifth_reference() {
    assert_eq!(
        Cell::new(vec![0u8; 129], CellType::Ordinary).err(),
        Some(CellError::DataTooLarge)
    );
    let mut cell = Cell::new(vec![0u8; 128], CellType::Ordinary).unwrap();
    for i in 0..4 {
        let r = CellReference { cell_index: i, merkle_hash: [i as u8; 32] };
        assert!(cell.add_reference(r).is_ok());
    }
    let r = CellReference { cell_index: 9, merkle_hash: [9u8; 32] };
    assert_eq!(cell.add_reference(r), Err(CellError::TooManyReferences));
    assert_eq!(cell.references().len(), 4);
}

#[test]
fn cell_encoding_roundtrip_keeps_every_part() {
    let mut cell = Cell::new(vec![5, 6, 7], CellType::LibraryReference).unwrap();
    cell.add_reference(CellReference { cell_index: 3, merkle_hash: [7u8; 32] }).unwrap();
    cell.set_merkle_hash([9u8; 32]);
    let mut bytes = vec![0xEE, 0xEE];
    cell.serialize(&mut bytes);
    let end = bytes.len();
    bytes.push(0xFF);
    let (decoded, pos) = Cell::deserialize(&bytes, 2).unwrap();
    assert_eq!(pos, end);
    assert_eq!(decoded.data(), &vec![5, 6, 7]);
    assert_eq!(decoded.references(), &vec![CellReference { cell_index: 3, merkle_hash: [7u8; 32] }]);
    assert_eq!(decoded.cell_type(), CellType::LibraryReference);
    assert_eq!(decoded.merkle_hash(), [9u8; 32]);
    // 4 + 3 + 4 + 36 + 1 + 32 bytes
    assert_eq!(end - 2, 80);
}

#[test]
fn cell_decoding_reports_truncation_and_bad_type() {
    let cell = Cell::new(vec![1, 2], CellType::Ordinary).unwrap();
    let mut bytes = Vec::new();
    cell.serialize(&mut bytes);
    let short = &bytes[..bytes.len() - 1];
    assert!(matches!(Cell::deserialize(short, 0), Err(CellError::UnexpectedEof)));
    let type_pos = 4 + 2 + 4;
    bytes[type_pos] = 9;
    assert!(matches!(Cell::deserialize(&bytes, 0), Err(CellError::InvalidData)));
}

#[test]
fn merkle_hash_is_recomputed_and_checked() {
    let mut cell = Cell::new(vec![1, 2, 3], CellType::MerkleProof).unwrap();
    assert!(!cell.verify_merkle_hash());
    cell.calculate_merkle_hash().unwrap();
    assert!(cell.verify_merkle_hash());
    assert_ne!(cell.merkle_hash(), [0u8; 32]);
    let boc = BOC { cells: vec![cell], roots: vec![0] };
    assert!(create_test_verifier().verify_boc(&boc).is_ok());
}

#[test]
fn builder_serialization_parses_back() {
    let mut builder = Builder::new();
    let a = builder.add_cell(Cell::new(vec![1], CellType::Ordinary).unwrap()).unwrap();
    let mut second = Cell::new(vec![2, 2], CellType::Ordinary).unwrap();
    second.add_reference(CellReference { cell_index: a, merkle_hash: [1u8; 32] }).unwrap();
    let b = builder.add_cell(second).unwrap();
    assert_eq!((a, b), (0, 1));
    let bytes = builder.serialize(vec![b]).unwrap();
    assert_eq!(&bytes[0..5], &[0xB5, 0xEE, 0x9C, 0x72, 0x01]);
    assert_eq!(&bytes[5..9], &[2, 0, 0, 0]);
    assert_eq!(&bytes[9..13], &[1, 0, 0, 0]);
    // two cells of 4 + 1 + 4 + 1 + 32 and 4 + 2 + 4 + 36 + 1 + 32 bytes, then one root
    assert_eq!(bytes.len(), 13 + 42 + 79 + 4);
    assert_eq!(&bytes[bytes.len() - 4..], &[1, 0, 0, 0]);
}

#[test]
fn builder_rejects_bad_roots_and_dangling_references() {
    let mut builder = Builder::new();
    builder.add_cell(Cell::new(vec![1], CellType::Ordinary).unwrap()).unwrap();
    assert_eq!(builder.build(vec![]).unwrap().roots.len(), 0);
    assert_eq!(builder.build(vec![5]).err(), Some(CellError::InvalidData));
    let mut dangling = Cell::new(vec![3], CellType::Ordinary).unwrap();
    dangling.add_reference(CellReference { cell_index: 7, merkle_hash: [0u8; 32] }).unwrap();
    builder.add_cell(dangling).unwrap();
    assert_eq!(builder.build(vec![0]).err(), Some(CellError::InvalidData));
    let big = Builder::with_limits(10, 8, 256);
    let mut big = big;
    big.add_cell(Cell::new(vec![1, 2], CellType::Ordinary).unwrap()).unwrap();
    assert_eq!(big.build(vec![0]).err(), Some(CellError::DataTooLarge));
}

#[test]
fn parser_rejects_truncated_input() {
    assert!(BOCParser::parse(&[1, 0, 0]).is_err());
    assert!(BOCParser::parse(&[1, 0, 0, 0]).is_err());
    let empty = BOCParser::parse(&[0, 0, 0, 0, 0, 0, 0, 0]).unwrap();
    assert_eq!(empty.cells.len(), 0);
    assert_eq!(empty.roots.len(), 0);
}

#[test]
fn verifier_reports_size_limits_and_bad_references() {
    let cells: Vec<Cell> = (0..3).map(|i| Cell::new(vec![i], CellType::Ordinary).unwrap()).collect();
    let boc = BOC { cells, roots: vec![0] };
    assert!(matches!(VerifyBOC::new(2, 1_000_000, 256).verify_boc(&boc), Err(BocError::TooManyCells)));
    assert!(matches!(VerifyBOC::new(10, 16, 256).verify_boc(&boc), Err(BocError::TotalSizeTooLarge)));

    let mut cell = Cell::new(vec![1], CellType::Ordinary).unwrap();
    cell.add_reference(CellReference { cell_index: 4, merkle_hash: [0u8; 32] }).unwrap();
    let boc = BOC { cells: vec![cell], roots: vec![0] };
    assert!(matches!(
        create_test_verifier().verify_boc(&boc),
        Err(BocError::InvalidReference { from: 0, to: 4 })
    ));
}

#[test]
fn verifier_accepts_shared_children() {
    let leaf = Cell::new(vec![9], CellType::Ordinary).unwrap();
    let mut left = Cell::new(vec![1], CellType::Ordinary).unwrap();
    left.add_reference(CellReference { cell_index: 3, merkle_hash: [0u8; 32] }).unwrap();
    let mut right = Cell::new(vec![2], CellType::Ordinary).unwrap();
    right.add_reference(CellReference { cell_index: 3, merkle_hash: [0u8; 32] }).unwrap();
    let mut root = Cell::new(vec![0], CellType::Ordinary).unwrap();
    root.add_reference(CellReference { cell_index: 1, merkle_hash: [0u8; 32] }).unwrap();
    root.add_reference(CellReference { cell_index: 2, merkle_hash: [0u8; 32] }).unwrap();
    let boc = BOC { cells: vec![root, left, right, leaf], roots: vec![0] };
    assert!(create_test_verifier().verify_boc(&boc).is_ok());
}

#[test]
fn cell_data_trait_reads_the_parts() {
    let mut cell = Cell::new(vec![3, 4], CellType::MerkleUpdate).unwrap();
    cell.add_reference(CellReference { cell_index: 1, merkle_hash: [2u8; 32] }).unwrap();
    cell.set_merkle_hash([6u8; 32]);
    assert_eq!(cell.get_data(), &vec![3, 4]);
    assert_eq!(cell.get_references().len(), 1);
    assert_eq!(*cell.get_cell_type(), CellType::MerkleUpdate);
    assert_eq!(*cell.get_merkle_hash(), [6u8; 32]);
}

#[test]
fn full_cell_encoding_carries_no_level() {
    let mut cell = Cell::new(vec![1, 2], CellType::Ordinary).unwrap();
    cell.set_level(4);
    assert_eq!(cell.level(), 4);
    let mut bytes = Vec::new();
    cell.serialize(&mut bytes);
    let (decoded, end) = Cell::deserialize(&bytes, 0).unwrap();
    assert_eq!(end, bytes.len());
    assert_eq!(decoded.level(), 0);
    assert_eq!(decoded.data(), cell.data());
}
