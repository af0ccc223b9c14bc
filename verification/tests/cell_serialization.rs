use overpass::error::CellError;
use overpass::state::boc::cell::Cell;
use overpass::state::boc::cell_serialization::{BOCSerializer, Deserializable, Serializable, BOC};
use overpass::types::ovp_types::{CellReference, CellType};

fn sample_cell() -> Cell {
    let mut cell = Cell::new(vec![4, 5], CellType::PrunedBranch).unwrap();
    cell.add_reference(CellReference { cell_index: 2, merkle_hash: [3u8; 32] }).unwrap();
    cell.set_merkle_hash([8u8; 32]);
    cell
}

#[test]
fn compact_cell_encoding_layout() {
    let bytes = BOC::serialize_cell(&sample_cell()).unwrap();
    let mut expected = vec![0u8, 1, 2, 4, 5, 1];
    expected.extend_from_slice(&[3u8; 32]);
    assert_eq!(bytes, expected);
}

#[test]
fn compact_cell_roundtrip_drops_the_hash() {
    let mut bytes = vec![7u8];
    bytes.extend(BOC::serialize_cell(&sample_cell()).unwrap());
    bytes.push(7);
    let (cell, end) = BOC::deserialize_cell(&bytes, 1).unwrap();
    assert_eq!(end, bytes.len() - 1);
    assert_eq!(cell.data(), &vec![4, 5]);
    assert_eq!(cell.references(), &vec![CellReference { cell_index: 0, merkle_hash: [3u8; 32] }]);
    assert_eq!(cell.cell_type(), CellType::PrunedBranch);
    assert_eq!(cell.merkle_hash(), [0u8; 32]);
    assert_eq!(cell.level(), 0);
}

#[test]
fn compact_cell_decoding_reads_level_and_hashes() {
    let mut bytes = vec![3u8, 0, 2, 9, 8, 1];
    bytes.extend_from_slice(&[5u8; 32]);
    let (cell, end) = BOC::deserialize_cell(&bytes, 0).unwrap();
    assert_eq!(end, 38);
    assert_eq!(cell.level(), 3);
    assert_eq!(cell.cell_type(), CellType::Ordinary);
    assert_eq!(cell.data(), &vec![9u8, 8]);
    assert_eq!(cell.references().len(), 1);
    assert_eq!(cell.references()[0].merkle_hash, [5u8; 32]);
}

#[test]
fn compact_cell_encoding_keeps_the_level() {
    let mut cell = sample_cell();
    cell.set_level(7);
    let bytes = BOC::serialize_cell(&cell).unwrap();
    assert_eq!(bytes[0], 7);
    assert_eq!(bytes.len(), 6 + 32);
    let (back, end) = BOC::deserialize_cell(&bytes, 0).unwrap();
    assert_eq!(end, bytes.len());
    assert_eq!(back.level(), 7);
    assert_eq!(back.data(), cell.data());
}

#[test]
fn compact_cell_decoding_errors() {
    assert_eq!(BOC::deserialize_cell(&[0, 0], 0).err(), Some(CellError::UnexpectedEof));
    assert_eq!(BOC::deserialize_cell(&[0, 0, 2, 1, 1], 0).err(), Some(CellError::UnexpectedEof));
    assert_eq!(BOC::deserialize_cell(&[0, 0, 0, 1], 0).err(), Some(CellError::UnexpectedEof));
    assert_eq!(BOC::deserialize_cell(&[0, 9, 0, 0], 0).err(), Some(CellError::InvalidData));
    let mut big = vec![0u8, 0, 200];
    big.extend(vec![1u8; 200]);
    big.push(0);
    assert_eq!(BOC::deserialize_cell(&big, 0).err(), Some(CellError::DataTooLarge));
    let mut many = vec![0u8, 0, 0, 5];
    many.extend(vec![0u8; 5 * 32]);
    assert_eq!(BOC::deserialize_cell(&many, 0).err(), Some(CellError::TooManyReferences));
    assert!(BOC::deserialize_cell(&[0, 3, 0, 0], 0).is_ok());
}

#[test]
fn read_helpers() {
    assert_eq!(BOC::read_u8(&[5, 6], 1), Ok(6));
    assert_eq!(BOC::read_u8(&[5, 6], 2), Err(CellError::UnexpectedEof));
    assert_eq!(BOC::read_u32(&[1, 2, 0, 0, 0], 1), Ok(2));
    assert_eq!(BOC::read_u32(&[1, 2, 0, 0], 1), Err(CellError::UnexpectedEof));
}

#[test]
fn hash_keyed_bag_and_compact_bag_encoding() {
    let mut boc = BOC::new(Vec::new(), Vec::new());
    let a = Cell::new(vec![1], CellType::Ordinary).unwrap();
    let b = Cell::new(vec![2], CellType::Ordinary).unwrap();
    let ha = boc.add_cell(a);
    let hb = boc.add_cell(b);
    assert_ne!(ha, hb);
    assert_eq!(boc.add_cell(Cell::new(vec![1], CellType::MerkleProof).unwrap()), ha);
    assert_eq!(boc.cells().len(), 2);
    assert_eq!(boc.get_cell(&ha).unwrap().cell_type(), CellType::MerkleProof);
    assert!(boc.get_cell(&[0u8; 32]).is_none());
    boc.add_root(hb);
    boc.add_root([0u8; 32]);
    assert_eq!(boc.roots(), &vec![1]);
    let bytes = BOC::serialize_boc(&boc).unwrap();
    assert_eq!(bytes, vec![1, 0, 0, 0, 2, 0, 0, 0, 0, 0, 1, 2, 0]);
}

#[test]
fn reference_and_cell_traits() {
    let r = CellReference { cell_index: 258, merkle_hash: [1u8; 32] };
    let mut out = Vec::new();
    r.serialize(&mut out);
    assert_eq!(&out[0..4], &[2, 1, 0, 0]);
    assert_eq!(CellReference::deserialize(&out, 0), Ok((r, 36)));
    assert_eq!(CellReference::deserialize(&out, 1), Err(CellError::UnexpectedEof));
    let cell = sample_cell();
    let mut enc = Vec::new();
    Serializable::serialize(&cell, &mut enc);
    let (back, end) = <Cell as Deserializable>::deserialize(&enc, 0).unwrap();
    assert_eq!(end, enc.len());
    assert_eq!(back.merkle_hash(), [8u8; 32]);
}
