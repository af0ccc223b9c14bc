use overpass::state::boc::cell::Cell;
use overpass::types::ovp_types::{CellType, CommonMsgInfo, CommonMsgInfoData};
use overpass::validation::validation_boc::validate_boc;
use overpass::validation::validation_error::ValidationError;
use overpass::validation::validation_node::validate_key_value;

#[test]
fn boc_validation_checks_header_then_cell_types() {
    assert_eq!(validate_boc(1, &[0, 1, 2, 3], &[9]), Ok(()));
    assert_eq!(validate_boc(0, &[0], &[9]), Err(ValidationError::InvalidBoc));
    assert_eq!(validate_boc(1, &[], &[9]), Err(ValidationError::InvalidBoc));
    assert_eq!(validate_boc(1, &[0], &[]), Err(ValidationError::InvalidBoc));
    assert_eq!(validate_boc(1, &[0, 4, 1], &[9]), Err(ValidationError::InvalidCellType));
    assert_eq!(validate_boc(0, &[4], &[]), Err(ValidationError::InvalidBoc));
}

#[test]
fn cell_validation_needs_data() {
    assert_eq!(Cell::new(vec![], CellType::Ordinary).unwrap().validate(), Err(ValidationError::InvalidData));
    assert_eq!(Cell::new(vec![1], CellType::Ordinary).unwrap().validate(), Ok(()));
}

#[test]
fn common_msg_info_validation_needs_data() {
    let empty = CommonMsgInfo { data: CommonMsgInfoData { data: vec![] } };
    let full = CommonMsgInfo { data: CommonMsgInfoData { data: vec![1] } };
    assert_eq!(empty.validate(), Err(ValidationError::InvalidData));
    assert_eq!(full.validate(), Ok(()));
}

#[test]
fn key_value_validation_needs_both_parts() {
    assert_eq!(validate_key_value(b"k", b"v"), Ok(()));
    assert_eq!(validate_key_value(b"", b"v"), Err(ValidationError::InvalidNodeData));
    assert_eq!(validate_key_value(b"k", b""), Err(ValidationError::InvalidNodeData));
}
