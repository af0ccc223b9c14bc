use overpass::types::ovp_ops::{
    ChannelOpCode, IntermediateOpCode, OpCode, RootOpCode, StorageOpCode, WalletExtensionStateChangeOp,
    WalletOpCode,
};
use std::convert::TryFrom;

#[test]
fn test_channel_opcode_conversion() {
    assert_eq!(
        ChannelOpCode::try_from(0xA0),
        Ok(ChannelOpCode::CreatePayment)
    );
    assert_eq!(
        ChannelOpCode::try_from(0xFF),
        Err("Invalid Channel operation code")
    );
    assert_eq!(u8::from(ChannelOpCode::CreatePayment), 0xA0);
}

#[test]
fn test_root_opcode_conversion() {
    assert_eq!(RootOpCode::try_from(0x01), Ok(RootOpCode::SubmitEpoch));
    assert_eq!(
        RootOpCode::try_from(0xFF),
        Err("Invalid Root operation code")
    );
    assert_eq!(u8::from(RootOpCode::SubmitEpoch), 0x01);
}

#[test]
fn test_storage_opcode_conversion() {
    assert_eq!(StorageOpCode::try_from(0xC0), Ok(StorageOpCode::ChargeNode));
    assert_eq!(
        StorageOpCode::try_from(0xFF),
        Err("Invalid Storage operation code")
    );
    assert_eq!(u8::from(StorageOpCode::ChargeNode), 0xC0);
}

#[test]
fn test_wallet_opcode_conversion() {
    assert_eq!(
        WalletOpCode::try_from(0x70),
        Ok(WalletOpCode::CreateChannel)
    );
    assert_eq!(
        WalletOpCode::try_from(0xFF),
        Err("Invalid Wallet operation code")
    );
    assert_eq!(u8::from(WalletOpCode::CreateChannel), 0x70);
}

#[test]
fn test_intermediate_opcode_conversion() {
    assert_eq!(
        IntermediateOpCode::try_from(0x20),
        Ok(IntermediateOpCode::RequestChannelOpen)
    );
    assert_eq!(
        IntermediateOpCode::try_from(0xFF),
        Err("Invalid Intermediate operation code")
    );
    assert_eq!(u8::from(IntermediateOpCode::RequestChannelOpen), 0x20);
}

#[test]
fn test_opcode_overlaps() {
    assert!(matches!(
        OpCode::from_u8(0xC0),
        Some(OpCode::Storage(StorageOpCode::ChargeNode))
    ));
    assert!(matches!(
        OpCode::from_u8(0xD0),
        Some(OpCode::Storage(StorageOpCode::PropagateState))
    ));
}

#[test]
fn test_opcode_to_u8() {
    let channel_op = ChannelOpCode::CreatePayment;
    assert_eq!(OpCode::Channel(channel_op).to_u8(), 0xA0);

    let root_op = RootOpCode::SubmitEpoch;
    assert_eq!(OpCode::Root(root_op).to_u8(), 0x01);
}

#[test]
fn test_opcode_from_u8() {
    assert_eq!(
        OpCode::from_u8(0xA0),
        Some(OpCode::Channel(ChannelOpCode::CreatePayment))
    );
    assert_eq!(
        OpCode::from_u8(0x01),
        Some(OpCode::Root(RootOpCode::SubmitEpoch))
    );
    assert_eq!(OpCode::from_u8(0xFF), None);
}

#[test]
fn every_byte_that_decodes_encodes_back() {
    for v in 0..=255u8 {
        if let Some(op) = OpCode::from_u8(v) {
            assert_eq!(op.to_u8(), v);
        }
        if let Ok(c) = ChannelOpCode::try_from(v) {
            assert_eq!(u8::from(c), v);
        }
        if let Ok(c) = WalletOpCode::try_from(v) {
            assert_eq!(u8::from(c), v);
        }
        if let Ok(c) = WalletExtensionStateChangeOp::try_from(v) {
            assert_eq!(u8::from(c), v);
        }
    }
}

#[test]
fn wallet_extension_codes() {
    assert_eq!(
        WalletExtensionStateChangeOp::try_from(0x82),
        Ok(WalletExtensionStateChangeOp::FinalizeState)
    );
    assert_eq!(
        WalletExtensionStateChangeOp::try_from(0x75),
        Err("Invalid WalletExtensionStateChangeOp operation code")
    );
    assert_eq!(u8::from(WalletExtensionStateChangeOp::ProcessChannel), 0x74);
}

#[test]
fn root_family_wins_over_later_families() {
    // 0x20 is both a root and an intermediate code: the root reading wins
    assert_eq!(OpCode::from_u8(0x20), Some(OpCode::Root(RootOpCode::RegisterIntermediate)));
    assert_eq!(
        IntermediateOpCode::try_from(0x20),
        Ok(IntermediateOpCode::RequestChannelOpen)
    );
    assert_eq!(OpCode::Intermediate(IntermediateOpCode::RequestChannelOpen).to_u8(), 0x20);
}
