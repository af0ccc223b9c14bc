use vstd::prelude::*;
use vstd::std_specs::convert::FromSpecImpl;
use vstd::std_specs::convert::TryFromSpecImpl;

verus! {

/// An operation code of any of the five operation families.
#[derive(Debug, Clone, Copy, PartialEq, Eq, Structural)]
pub enum OpCode {
    Root(RootOpCode),
    Intermediate(IntermediateOpCode),
    Wallet(WalletOpCode),
    Channel(ChannelOpCode),
    Storage(StorageOpCode),
}

/// The byte that encodes `op`: the byte of the operation within its family.
pub open spec fn opcode_byte(op: OpCode) -> u8 {
    match op {
        OpCode::Root(c) => root_opcode_byte(c),
        OpCode::Intermediate(c) => intermediate_opcode_byte(c),
        OpCode::Wallet(c) => wallet_opcode_byte(c),
        OpCode::Channel(c) => channel_opcode_byte(c),
        OpCode::Storage(c) => storage_opcode_byte(c),
    }
}

/// Decoding of a byte into an operation code. Families overlap, so a byte is
/// read in the first family that defines it, in the order Root, Intermediate,
/// Storage, Wallet, Channel.
pub open spec fn opcode_from_byte(v: u8) -> Option<OpCode> {
    if let Some(c) = root_opcode_from_byte(v) {
        Some(OpCode::Root(c))
    } else if let Some(c) = intermediate_opcode_from_byte(v) {
        Some(OpCode::Intermediate(c))
    } else if let Some(c) = storage_opcode_from_byte(v) {
        Some(OpCode::Storage(c))
    } else if let Some(c) = wallet_opcode_from_byte(v) {
        Some(OpCode::Wallet(c))
    } else if let Some(c) = channel_opcode_from_byte(v) {
        Some(OpCode::Channel(c))
    } else {
        None
    }
}

impl OpCode {
    /// The byte that encodes this operation.
    pub fn to_u8(&self) -> (r: u8)
        ensures
            r == opcode_byte(*self),
    {
        match self {
            OpCode::Root(op) => u8::from(*op),
            OpCode::Intermediate(op) => u8::from(*op),
            OpCode::Wallet(op) => u8::from(*op),
            OpCode::Channel(op) => u8::from(*op),
            OpCode::Storage(op) => u8::from(*op),
        }
    }

    /// Decodes a byte, trying the families in the order Root, Intermediate,
    /// Storage, Wallet, Channel; `None` when no family defines the byte.
    pub fn from_u8(value: u8) -> (r: Option<OpCode>)
        ensures
            r == opcode_from_byte(value),
    {
        if let Ok(op) = RootOpCode::try_from(value) {
            return Some(OpCode::Root(op));
        }
        if let Ok(op) = IntermediateOpCode::try_from(value) {
            return Some(OpCode::Intermediate(op));
        }
        if let Ok(op) = StorageOpCode::try_from(value) {
            return Some(OpCode::Storage(op));
        }
        if let Ok(op) = WalletOpCode::try_from(value) {
            return Some(OpCode::Wallet(op));
        }
        if let Ok(op) = ChannelOpCode::try_from(value) {
            return Some(OpCode::Channel(op));
        }
        None
    }
}

/// Behaviour shared by executable operations.
pub trait Operation {
    fn op_code(&self) -> OpCode;

    fn validate(&self) -> bool;

    fn execute(&self) -> Result<(), String>;
}

/// The outcome of an executed operation.
#[derive(Debug, Clone)]
pub struct OperationResult {
    pub success: bool,
    pub op_code: OpCode,
    pub message: Option<String>,
    pub data: Option<Vec<u8>>,
}

/// Channel operations.
#[derive(Debug, Clone, Copy, PartialEq, Eq, Structural)]
pub enum ChannelOpCode {
    CreatePayment,
    UpdateState,
    FinalizeState,
    DisputeState,
    InitChannel,
    ValidatePayment,
    ValidateState,
    ValidateFinalState,
    ValidateDispute,
    ValidateSettlement,
    ProcessPayment,
    InitiateSettlement,
    ProcessSettlement,
    FinalizeSettlement,
    ValidateTransition,
    VerifyProof,
    GetChannel,
}

/// The byte of each `ChannelOpCode`.
pub open spec fn channel_opcode_byte(c: ChannelOpCode) -> u8 {
    match c {
        ChannelOpCode::CreatePayment => 0xA0,
        ChannelOpCode::UpdateState => 0xA1,
        ChannelOpCode::FinalizeState => 0xA2,
        ChannelOpCode::DisputeState => 0xA3,
        ChannelOpCode::InitChannel => 0xA4,
        ChannelOpCode::ValidatePayment => 0xB0,
        ChannelOpCode::ValidateState => 0xB1,
        ChannelOpCode::ValidateFinalState => 0xB2,
        ChannelOpCode::ValidateDispute => 0xB3,
        ChannelOpCode::ValidateSettlement => 0xB4,
        ChannelOpCode::ProcessPayment => 0xD1,
        ChannelOpCode::InitiateSettlement => 0xE0,
        ChannelOpCode::ProcessSettlement => 0xE1,
        ChannelOpCode::FinalizeSettlement => 0xE2,
        ChannelOpCode::ValidateTransition => 0xF0,
        ChannelOpCode::VerifyProof => 0xF1,
        ChannelOpCode::GetChannel => 0xF2,
    }
}

/// The `ChannelOpCode` that a byte names, if any.
pub open spec fn channel_opcode_from_byte(v: u8) -> Option<ChannelOpCode> {
    match v {
        0xA0 => Some(ChannelOpCode::CreatePayment),
        0xA1 => Some(ChannelOpCode::UpdateState),
        0xA2 => Some(ChannelOpCode::FinalizeState),
        0xA3 => Some(ChannelOpCode::DisputeState),
        0xA4 => Some(ChannelOpCode::InitChannel),
        0xB0 => Some(ChannelOpCode::ValidatePayment),
        0xB1 => Some(ChannelOpCode::ValidateState),
        0xB2 => Some(ChannelOpCode::ValidateFinalState),
        0xB3 => Some(ChannelOpCode::ValidateDispute),
        0xB4 => Some(ChannelOpCode::ValidateSettlement),
        0xD1 => Some(ChannelOpCode::ProcessPayment),
        0xE0 => Some(ChannelOpCode::InitiateSettlement),
        0xE1 => Some(ChannelOpCode::ProcessSettlement),
        0xE2 => Some(ChannelOpCode::FinalizeSettlement),
        0xF0 => Some(ChannelOpCode::ValidateTransition),
        0xF1 => Some(ChannelOpCode::VerifyProof),
        0xF2 => Some(ChannelOpCode::GetChannel),
        _ => None,
    }
}

/// The error text for a byte that names no `ChannelOpCode`.
pub open spec fn channel_opcode_error() -> &'static str {
    "Invalid Channel operation code"
}

impl From<ChannelOpCode> for u8 {
    fn from(code: ChannelOpCode) -> (r: u8) {
        match code {
            ChannelOpCode::CreatePayment => 0xA0,
            ChannelOpCode::UpdateState => 0xA1,
            ChannelOpCode::FinalizeState => 0xA2,
            ChannelOpCode::DisputeState => 0xA3,
            ChannelOpCode::InitChannel => 0xA4,
            ChannelOpCode::ValidatePayment => 0xB0,
            ChannelOpCode::ValidateState => 0xB1,
            ChannelOpCode::ValidateFinalState => 0xB2,
            ChannelOpCode::ValidateDispute => 0xB3,
            ChannelOpCode::ValidateSettlement => 0xB4,
            ChannelOpCode::ProcessPayment => 0xD1,
            ChannelOpCode::InitiateSettlement => 0xE0,
            ChannelOpCode::ProcessSettlement => 0xE1,
            ChannelOpCode::FinalizeSettlement => 0xE2,
            ChannelOpCode::ValidateTransition => 0xF0,
            ChannelOpCode::VerifyProof => 0xF1,
            ChannelOpCode::GetChannel => 0xF2,
        }
    }
}

impl FromSpecImpl<ChannelOpCode> for u8 {
    open spec fn obeys_from_spec() -> bool {
        true
    }

    open spec fn from_spec(v: ChannelOpCode) -> u8 {
        channel_opcode_byte(v)
    }
}

impl TryFrom<u8> for ChannelOpCode {
    type Error = &'static str;

    fn try_from(value: u8) -> (r: Result<Self, Self::Error>) {
        match value {
            0xA0 => Ok(Self::CreatePayment),
            0xA1 => Ok(Self::UpdateState),
            0xA2 => Ok(Self::FinalizeState),
            0xA3 => Ok(Self::DisputeState),
            0xA4 => Ok(Self::InitChannel),
            0xB0 => Ok(Self::ValidatePayment),
            0xB1 => Ok(Self::ValidateState),
            0xB2 => Ok(Self::ValidateFinalState),
            0xB3 => Ok(Self::ValidateDispute),
            0xB4 => Ok(Self::ValidateSettlement),
            0xD1 => Ok(Self::ProcessPayment),
            0xE0 => Ok(Self::InitiateSettlement),
            0xE1 => Ok(Self::ProcessSettlement),
            0xE2 => Ok(Self::FinalizeSettlement),
            0xF0 => Ok(Self::ValidateTransition),
            0xF1 => Ok(Self::VerifyProof),
            0xF2 => Ok(Self::GetChannel),
            _ => Err("Invalid Channel operation code"),
        }
    }
}

impl TryFromSpecImpl<u8> for ChannelOpCode {
    open spec fn obeys_try_from_spec() -> bool {
        true
    }

    open spec fn try_from_spec(v: u8) -> Result<Self, &'static str> {
        match channel_opcode_from_byte(v) {
            Some(c) => Ok(c),
            None => Err(channel_opcode_error()),
        }
    }
}

/// Root contract operations.
#[derive(Debug, Clone, Copy, PartialEq, Eq, Structural)]
pub enum RootOpCode {
    SubmitEpoch,
    ValidateEpoch,
    FinalizeEpoch,
    UpdateGlobalRoot,
    ValidateGlobalState,
    RegisterIntermediate,
    RemoveIntermediate,
    ValidateIntermediate,
}

/// The byte of each `RootOpCode`.
pub open spec fn root_opcode_byte(c: RootOpCode) -> u8 {
    match c {
        RootOpCode::SubmitEpoch => 0x01,
        RootOpCode::ValidateEpoch => 0x02,
        RootOpCode::FinalizeEpoch => 0x03,
        RootOpCode::UpdateGlobalRoot => 0x10,
        RootOpCode::ValidateGlobalState => 0x11,
        RootOpCode::RegisterIntermediate => 0x20,
        RootOpCode::RemoveIntermediate => 0x21,
        RootOpCode::ValidateIntermediate => 0x22,
    }
}

/// The `RootOpCode` that a byte names, if any.
pub open spec fn root_opcode_from_byte(v: u8) -> Option<RootOpCode> {
    match v {
        0x01 => Some(RootOpCode::SubmitEpoch),
        0x02 => Some(RootOpCode::ValidateEpoch),
        0x03 => Some(RootOpCode::FinalizeEpoch),
        0x10 => Some(RootOpCode::UpdateGlobalRoot),
        0x11 => Some(RootOpCode::ValidateGlobalState),
        0x20 => Some(RootOpCode::RegisterIntermediate),
        0x21 => Some(RootOpCode::RemoveIntermediate),
        0x22 => Some(RootOpCode::ValidateIntermediate),
        _ => None,
    }
}

/// The error text for a byte that names no `RootOpCode`.
pub open spec fn root_opcode_error() -> &'static str {
    "Invalid Root operation code"
}

impl From<RootOpCode> for u8 {
    fn from(code: RootOpCode) -> (r: u8) {
        match code {
            RootOpCode::SubmitEpoch => 0x01,
            RootOpCode::ValidateEpoch => 0x02,
            RootOpCode::FinalizeEpoch => 0x03,
            RootOpCode::UpdateGlobalRoot => 0x10,
            RootOpCode::ValidateGlobalState => 0x11,
            RootOpCode::RegisterIntermediate => 0x20,
            RootOpCode::RemoveIntermediate => 0x21,
            RootOpCode::ValidateIntermediate => 0x22,
        }
    }
}

impl FromSpecImpl<RootOpCode> for u8 {
    open spec fn obeys_from_spec() -> bool {
        true
    }

    open spec fn from_spec(v: RootOpCode) -> u8 {
        root_opcode_byte(v)
    }
}

impl TryFrom<u8> for RootOpCode {
    type Error = &'static str;

    fn try_from(value: u8) -> (r: Result<Self, Self::Error>) {
        match value {
            0x01 => Ok(Self::SubmitEpoch),
            0x02 => Ok(Self::ValidateEpoch),
            0x03 => Ok(Self::FinalizeEpoch),
            0x10 => Ok(Self::UpdateGlobalRoot),
            0x11 => Ok(Self::ValidateGlobalState),
            0x20 => Ok(Self::RegisterIntermediate),
            0x21 => Ok(Self::RemoveIntermediate),
            0x22 => Ok(Self::ValidateIntermediate),
            _ => Err("Invalid Root operation code"),
        }
    }
}

impl TryFromSpecImpl<u8> for RootOpCode {
    open spec fn obeys_try_from_spec() -> bool {
        true
    }

    open spec fn try_from_spec(v: u8) -> Result<Self, &'static str> {
        match root_opcode_from_byte(v) {
            Some(c) => Ok(c),
            None => Err(root_opcode_error()),
        }
    }
}

/// Storage node operations.
#[derive(Debug, Clone, Copy, PartialEq, Eq, Structural)]
pub enum StorageOpCode {
    ChargeNode,
    DischargeNode,
    ValidateBattery,
    PropagateState,
    SyncState,
    ValidateSync,
    ReplicateState,
    ValidateReplica,
}

/// The byte of each `StorageOpCode`.
pub open spec fn storage_opcode_byte(c: StorageOpCode) -> u8 {
    match c {
        StorageOpCode::ChargeNode => 0xC0,
        StorageOpCode::DischargeNode => 0xC1,
        StorageOpCode::ValidateBattery => 0xC2,
        StorageOpCode::PropagateState => 0xD0,
        StorageOpCode::SyncState => 0xD1,
        StorageOpCode::ValidateSync => 0xD2,
        StorageOpCode::ReplicateState => 0xE0,
        StorageOpCode::ValidateReplica => 0xE1,
    }
}

/// The `StorageOpCode` that a byte names, if any.
pub open spec fn storage_opcode_from_byte(v: u8) -> Option<StorageOpCode> {
    match v {
        0xC0 => Some(StorageOpCode::ChargeNode),
        0xC1 => Some(StorageOpCode::DischargeNode),
        0xC2 => Some(StorageOpCode::ValidateBattery),
        0xD0 => Some(StorageOpCode::PropagateState),
        0xD1 => Some(StorageOpCode::SyncState),
        0xD2 => Some(StorageOpCode::ValidateSync),
        0xE0 => Some(StorageOpCode::ReplicateState),
        0xE1 => Some(StorageOpCode::ValidateReplica),
        _ => None,
    }
}

/// The error text for a byte that names no `StorageOpCode`.
pub open spec fn storage_opcode_error() -> &'static str {
    "Invalid Storage operation code"
}

impl From<StorageOpCode> for u8 {
    fn from(code: StorageOpCode) -> (r: u8) {
        match code {
            StorageOpCode::ChargeNode => 0xC0,
            StorageOpCode::DischargeNode => 0xC1,
            StorageOpCode::ValidateBattery => 0xC2,
            StorageOpCode::PropagateState => 0xD0,
            StorageOpCode::SyncState => 0xD1,
            StorageOpCode::ValidateSync => 0xD2,
            StorageOpCode::ReplicateState => 0xE0,
            StorageOpCode::ValidateReplica => 0xE1,
        }
    }
}

impl FromSpecImpl<StorageOpCode> for u8 {
    open spec fn obeys_from_spec() -> bool {
        true
    }

    open spec fn from_spec(v: StorageOpCode) -> u8 {
        storage_opcode_byte(v)
    }
}

impl TryFrom<u8> for StorageOpCode {
    type Error = &'static str;

    fn try_from(value: u8) -> (r: Result<Self, Self::Error>) {
        match value {
            0xC0 => Ok(Self::ChargeNode),
            0xC1 => Ok(Self::DischargeNode),
            0xC2 => Ok(Self::ValidateBattery),
            0xD0 => Ok(Self::PropagateState),
            0xD1 => Ok(Self::SyncState),
            0xD2 => Ok(Self::ValidateSync),
            0xE0 => Ok(Self::ReplicateState),
            0xE1 => Ok(Self::ValidateReplica),
            _ => Err("Invalid Storage operation code"),
        }
    }
}

impl TryFromSpecImpl<u8> for StorageOpCode {
    open spec fn obeys_try_from_spec() -> bool {
        true
    }

    open spec fn try_from_spec(v: u8) -> Result<Self, &'static str> {
        match storage_opcode_from_byte(v) {
            Some(c) => Ok(c),
            None => Err(storage_opcode_error()),
        }
    }
}

/// Wallet operations.
#[derive(Debug, Clone, Copy, PartialEq, Eq, Structural)]
pub enum WalletOpCode {
    CreateChannel,
    UpdateChannel,
    CloseChannel,
    ValidateChannel,
    UpdateWalletTree,
    ValidateWalletTree,
    UpdateWalletState,
    ValidateWalletState,
    UpdateBalance,
    ValidateBalance,
    CreateTransaction,
    ValidateTransaction,
    ProcessTransaction,
    GenerateWalletProof,
    VerifyWalletProof,
}

/// The byte of each `WalletOpCode`.
pub open spec fn wallet_opcode_byte(c: WalletOpCode) -> u8 {
    match c {
        WalletOpCode::CreateChannel => 0x70,
        WalletOpCode::UpdateChannel => 0x71,
        WalletOpCode::CloseChannel => 0x72,
        WalletOpCode::ValidateChannel => 0x73,
        WalletOpCode::UpdateWalletTree => 0x80,
        WalletOpCode::ValidateWalletTree => 0x81,
        WalletOpCode::UpdateWalletState => 0x90,
        WalletOpCode::ValidateWalletState => 0x91,
        WalletOpCode::UpdateBalance => 0xB0,
        WalletOpCode::ValidateBalance => 0xB1,
        WalletOpCode::CreateTransaction => 0xC0,
        WalletOpCode::ValidateTransaction => 0xC1,
        WalletOpCode::ProcessTransaction => 0xC2,
        WalletOpCode::GenerateWalletProof => 0xD0,
        WalletOpCode::VerifyWalletProof => 0xD1,
    }
}

/// The `WalletOpCode` that a byte names, if any.
pub open spec fn wallet_opcode_from_byte(v: u8) -> Option<WalletOpCode> {
    match v {
        0x70 => Some(WalletOpCode::CreateChannel),
        0x71 => Some(WalletOpCode::UpdateChannel),
        0x72 => Some(WalletOpCode::CloseChannel),
        0x73 => Some(WalletOpCode::ValidateChannel),
        0x80 => Some(WalletOpCode::UpdateWalletTree),
        0x81 => Some(WalletOpCode::ValidateWalletTree),
        0x90 => Some(WalletOpCode::UpdateWalletState),
        0x91 => Some(WalletOpCode::ValidateWalletState),
        0xB0 => Some(WalletOpCode::UpdateBalance),
        0xB1 => Some(WalletOpCode::ValidateBalance),
        0xC0 => Some(WalletOpCode::CreateTransaction),
        0xC1 => Some(WalletOpCode::ValidateTransaction),
        0xC2 => Some(WalletOpCode::ProcessTransaction),
        0xD0 => Some(WalletOpCode::GenerateWalletProof),
        0xD1 => Some(WalletOpCode::VerifyWalletProof),
        _ => None,
    }
}

/// The error text for a byte that names no `WalletOpCode`.
pub open spec fn wallet_opcode_error() -> &'static str {
    "Invalid Wallet operation code"
}

impl From<WalletOpCode> for u8 {
    fn from(code: WalletOpCode) -> (r: u8) {
        match code {
            WalletOpCode::CreateChannel => 0x70,
            WalletOpCode::UpdateChannel => 0x71,
            WalletOpCode::CloseChannel => 0x72,
            WalletOpCode::ValidateChannel => 0x73,
            WalletOpCode::UpdateWalletTree => 0x80,
            WalletOpCode::ValidateWalletTree => 0x81,
            WalletOpCode::UpdateWalletState => 0x90,
            WalletOpCode::ValidateWalletState => 0x91,
            WalletOpCode::UpdateBalance => 0xB0,
            WalletOpCode::ValidateBalance => 0xB1,
            WalletOpCode::CreateTransaction => 0xC0,
            WalletOpCode::ValidateTransaction => 0xC1,
            WalletOpCode::ProcessTransaction => 0xC2,
            WalletOpCode::GenerateWalletProof => 0xD0,
            WalletOpCode::VerifyWalletProof => 0xD1,
        }
    }
}

impl FromSpecImpl<WalletOpCode> for u8 {
    open spec fn obeys_from_spec() -> bool {
        true
    }

    open spec fn from_spec(v: WalletOpCode) -> u8 {
        wallet_opcode_byte(v)
    }
}

impl TryFrom<u8> for WalletOpCode {
    type Error = &'static str;

    fn try_from(value: u8) -> (r: Result<Self, Self::Error>) {
        match value {
            0x70 => Ok(Self::CreateChannel),
            0x71 => Ok(Self::UpdateChannel),
            0x72 => Ok(Self::CloseChannel),
            0x73 => Ok(Self::ValidateChannel),
            0x80 => Ok(Self::UpdateWalletTree),
            0x81 => Ok(Self::ValidateWalletTree),
            0x90 => Ok(Self::UpdateWalletState),
            0x91 => Ok(Self::ValidateWalletState),
            0xB0 => Ok(Self::UpdateBalance),
            0xB1 => Ok(Self::ValidateBalance),
            0xC0 => Ok(Self::CreateTransaction),
            0xC1 => Ok(Self::ValidateTransaction),
            0xC2 => Ok(Self::ProcessTransaction),
            0xD0 => Ok(Self::GenerateWalletProof),
            0xD1 => Ok(Self::VerifyWalletProof),
            _ => Err("Invalid Wallet operation code"),
        }
    }
}

impl TryFromSpecImpl<u8> for WalletOpCode {
    open spec fn obeys_try_from_spec() -> bool {
        true
    }

    open spec fn try_from_spec(v: u8) -> Result<Self, &'static str> {
        match wallet_opcode_from_byte(v) {
            Some(c) => Ok(c),
            None => Err(wallet_opcode_error()),
        }
    }
}

/// State changes of a wallet extension.
#[derive(Debug, Clone, Copy, PartialEq, Eq, Structural)]
pub enum WalletExtensionStateChangeOp {
    CreateChannel,
    UpdateChannel,
    CloseChannel,
    ValidateChannel,
    ProcessChannel,
    ValidateTransaction,
    ProcessTransaction,
    FinalizeState,
}

/// The byte of each `WalletExtensionStateChangeOp`.
pub open spec fn wallet_extension_op_byte(c: WalletExtensionStateChangeOp) -> u8 {
    match c {
        WalletExtensionStateChangeOp::CreateChannel => 0x70,
        WalletExtensionStateChangeOp::UpdateChannel => 0x71,
        WalletExtensionStateChangeOp::CloseChannel => 0x72,
        WalletExtensionStateChangeOp::ValidateChannel => 0x73,
        WalletExtensionStateChangeOp::ProcessChannel => 0x74,
        WalletExtensionStateChangeOp::ValidateTransaction => 0x80,
        WalletExtensionStateChangeOp::ProcessTransaction => 0x81,
        WalletExtensionStateChangeOp::FinalizeState => 0x82,
    }
}

/// The `WalletExtensionStateChangeOp` that a byte names, if any.
pub open spec fn wallet_extension_op_from_byte(v: u8) -> Option<WalletExtensionStateChangeOp> {
    match v {
        0x70 => Some(WalletExtensionStateChangeOp::CreateChannel),
        0x71 => Some(WalletExtensionStateChangeOp::UpdateChannel),
        0x72 => Some(WalletExtensionStateChangeOp::CloseChannel),
        0x73 => Some(WalletExtensionStateChangeOp::ValidateChannel),
        0x74 => Some(WalletExtensionStateChangeOp::ProcessChannel),
        0x80 => Some(WalletExtensionStateChangeOp::ValidateTransaction),
        0x81 => Some(WalletExtensionStateChangeOp::ProcessTransaction),
        0x82 => Some(WalletExtensionStateChangeOp::FinalizeState),
        _ => None,
    }
}

/// The error text for a byte that names no `WalletExtensionStateChangeOp`.
pub open spec fn wallet_extension_op_error() -> &'static str {
    "Invalid WalletExtensionStateChangeOp operation code"
}

impl From<WalletExtensionStateChangeOp> for u8 {
    fn from(code: WalletExtensionStateChangeOp) -> (r: u8) {
        match code {
            WalletExtensionStateChangeOp::CreateChannel => 0x70,
            WalletExtensionStateChangeOp::UpdateChannel => 0x71,
            WalletExtensionStateChangeOp::CloseChannel => 0x72,
            WalletExtensionStateChangeOp::ValidateChannel => 0x73,
            WalletExtensionStateChangeOp::ProcessChannel => 0x74,
            WalletExtensionStateChangeOp::ValidateTransaction => 0x80,
            WalletExtensionStateChangeOp::ProcessTransaction => 0x81,
            WalletExtensionStateChangeOp::FinalizeState => 0x82,
        }
    }
}

impl FromSpecImpl<WalletExtensionStateChangeOp> for u8 {
    open spec fn obeys_from_spec() -> bool {
        true
    }

    open spec fn from_spec(v: WalletExtensionStateChangeOp) -> u8 {
        wallet_extension_op_byte(v)
    }
}

impl TryFrom<u8> for WalletExtensionStateChangeOp {
    type Error = &'static str;

    fn try_from(value: u8) -> (r: Result<Self, Self::Error>) {
        match value {
            0x70 => Ok(Self::CreateChannel),
            0x71 => Ok(Self::UpdateChannel),
            0x72 => Ok(Self::CloseChannel),
            0x73 => Ok(Self::ValidateChannel),
            0x74 => Ok(Self::ProcessChannel),
            0x80 => Ok(Self::ValidateTransaction),
            0x81 => Ok(Self::ProcessTransaction),
            0x82 => Ok(Self::FinalizeState),
            _ => Err("Invalid WalletExtensionStateChangeOp operation code"),
        }
    }
}

impl TryFromSpecImpl<u8> for WalletExtensionStateChangeOp {
    open spec fn obeys_try_from_spec() -> bool {
        true
    }

    open spec fn try_from_spec(v: u8) -> Result<Self, &'static str> {
        match wallet_extension_op_from_byte(v) {
            Some(c) => Ok(c),
            None => Err(wallet_extension_op_error()),
        }
    }
}

/// Intermediate contract operations.
#[derive(Debug, Clone, Copy, PartialEq, Eq, Structural)]
pub enum IntermediateOpCode {
    RequestChannelOpen,
    ApproveChannelOpen,
    RequestChannelClose,
    ProcessChannelClose,
    RequestManualRebalance,
    CheckChannelBalances,
    ValidateRebalance,
    ExecuteRebalance,
    RegisterWallet,
    UpdateWalletRoot,
    ValidateWalletRoot,
    ProcessWalletRoot,
    ValidateStateUpdate,
    AssignStorageNode,
    UpdateStorageNode,
    ValidateStorageNode,
    StoreWalletState,
    VerifyStorageState,
    ReplicateState,
    PrepareRootSubmission,
    SubmitToRoot,
    UpdateIntermediateState,
    ValidateIntermediateState,
    UpdateTree,
    ValidateTree,
}

/// The byte of each `IntermediateOpCode`.
pub open spec fn intermediate_opcode_byte(c: IntermediateOpCode) -> u8 {
    match c {
        IntermediateOpCode::RequestChannelOpen => 0x20,
        IntermediateOpCode::ApproveChannelOpen => 0x21,
        IntermediateOpCode::RequestChannelClose => 0x22,
        IntermediateOpCode::ProcessChannelClose => 0x23,
        IntermediateOpCode::RequestManualRebalance => 0x24,
        IntermediateOpCode::CheckChannelBalances => 0x25,
        IntermediateOpCode::ValidateRebalance => 0x26,
        IntermediateOpCode::ExecuteRebalance => 0x27,
        IntermediateOpCode::RegisterWallet => 0x30,
        IntermediateOpCode::UpdateWalletRoot => 0x31,
        IntermediateOpCode::ValidateWalletRoot => 0x32,
        IntermediateOpCode::ProcessWalletRoot => 0x33,
        IntermediateOpCode::ValidateStateUpdate => 0x34,
        IntermediateOpCode::AssignStorageNode => 0x40,
        IntermediateOpCode::UpdateStorageNode => 0x41,
        IntermediateOpCode::ValidateStorageNode => 0x42,
        IntermediateOpCode::StoreWalletState => 0x43,
        IntermediateOpCode::VerifyStorageState => 0x44,
        IntermediateOpCode::ReplicateState => 0x45,
        IntermediateOpCode::PrepareRootSubmission => 0x50,
        IntermediateOpCode::SubmitToRoot => 0x51,
        IntermediateOpCode::UpdateIntermediateState => 0x52,
        IntermediateOpCode::ValidateIntermediateState => 0x53,
        IntermediateOpCode::UpdateTree => 0x60,
        IntermediateOpCode::ValidateTree => 0x61,
    }
}

/// The `IntermediateOpCode` that a byte names, if any.
pub open spec fn intermediate_opcode_from_byte(v: u8) -> Option<IntermediateOpCode> {
    match v {
        0x20 => Some(IntermediateOpCode::RequestChannelOpen),
        0x21 => Some(IntermediateOpCode::ApproveChannelOpen),
        0x22 => Some(IntermediateOpCode::RequestChannelClose),
        0x23 => Some(IntermediateOpCode::ProcessChannelClose),
        0x24 => Some(IntermediateOpCode::RequestManualRebalance),
        0x25 => Some(IntermediateOpCode::CheckChannelBalances),
        0x26 => Some(IntermediateOpCode::ValidateRebalance),
        0x27 => Some(IntermediateOpCode::ExecuteRebalance),
        0x30 => Some(IntermediateOpCode::RegisterWallet),
        0x31 => Some(IntermediateOpCode::UpdateWalletRoot),
        0x32 => Some(IntermediateOpCode::ValidateWalletRoot),
        0x33 => Some(IntermediateOpCode::ProcessWalletRoot),
        0x34 => Some(IntermediateOpCode::ValidateStateUpdate),
        0x40 => Some(IntermediateOpCode::AssignStorageNode),
        0x41 => Some(IntermediateOpCode::UpdateStorageNode),
        0x42 => Some(IntermediateOpCode::ValidateStorageNode),
        0x43 => Some(IntermediateOpCode::StoreWalletState),
        0x44 => Some(IntermediateOpCode::VerifyStorageState),
        0x45 => Some(IntermediateOpCode::ReplicateState),
        0x50 => Some(IntermediateOpCode::PrepareRootSubmission),
        0x51 => Some(IntermediateOpCode::SubmitToRoot),
        0x52 => Some(IntermediateOpCode::UpdateIntermediateState),
        0x53 => Some(IntermediateOpCode::ValidateIntermediateState),
        0x60 => Some(IntermediateOpCode::UpdateTree),
        0x61 => Some(IntermediateOpCode::ValidateTree),
        _ => None,
    }
}

/// The error text for a byte that names no `IntermediateOpCode`.
pub open spec fn intermediate_opcode_error() -> &'static str {
    "Invalid Intermediate operation code"
}

impl From<IntermediateOpCode> for u8 {
    fn from(code: IntermediateOpCode) -> (r: u8) {
        match code {
            IntermediateOpCode::RequestChannelOpen => 0x20,
            IntermediateOpCode::ApproveChannelOpen => 0x21,
            IntermediateOpCode::RequestChannelClose => 0x22,
            IntermediateOpCode::ProcessChannelClose => 0x23,
            IntermediateOpCode::RequestManualRebalance => 0x24,
            IntermediateOpCode::CheckChannelBalances => 0x25,
            IntermediateOpCode::ValidateRebalance => 0x26,
            IntermediateOpCode::ExecuteRebalance => 0x27,
            IntermediateOpCode::RegisterWallet => 0x30,
            IntermediateOpCode::UpdateWalletRoot => 0x31,
            IntermediateOpCode::ValidateWalletRoot => 0x32,
            IntermediateOpCode::ProcessWalletRoot => 0x33,
            IntermediateOpCode::ValidateStateUpdate => 0x34,
            IntermediateOpCode::AssignStorageNode => 0x40,
            IntermediateOpCode::UpdateStorageNode => 0x41,
            IntermediateOpCode::ValidateStorageNode => 0x42,
            IntermediateOpCode::StoreWalletState => 0x43,
            IntermediateOpCode::VerifyStorageState => 0x44,
            IntermediateOpCode::ReplicateState => 0x45,
            IntermediateOpCode::PrepareRootSubmission => 0x50,
            IntermediateOpCode::SubmitToRoot => 0x51,
            IntermediateOpCode::UpdateIntermediateState => 0x52,
            IntermediateOpCode::ValidateIntermediateState => 0x53,
            IntermediateOpCode::UpdateTree => 0x60,
            IntermediateOpCode::ValidateTree => 0x61,
        }
    }
}

impl FromSpecImpl<IntermediateOpCode> for u8 {
    open spec fn obeys_from_spec() -> bool {
        true
    }

    open spec fn from_spec(v: IntermediateOpCode) -> u8 {
        intermediate_opcode_byte(v)
    }
}

impl TryFrom<u8> for IntermediateOpCode {
    type Error = &'static str;

    fn try_from(value: u8) -> (r: Result<Self, Self::Error>) {
        match value {
            0x20 => Ok(Self::RequestChannelOpen),
            0x21 => Ok(Self::ApproveChannelOpen),
            0x22 => Ok(Self::RequestChannelClose),
            0x23 => Ok(Self::ProcessChannelClose),
            0x24 => Ok(Self::RequestManualRebalance),
            0x25 => Ok(Self::CheckChannelBalances),
            0x26 => Ok(Self::ValidateRebalance),
            0x27 => Ok(Self::ExecuteRebalance),
            0x30 => Ok(Self::RegisterWallet),
            0x31 => Ok(Self::UpdateWalletRoot),
            0x32 => Ok(Self::ValidateWalletRoot),
            0x33 => Ok(Self::ProcessWalletRoot),
            0x34 => Ok(Self::ValidateStateUpdate),
            0x40 => Ok(Self::AssignStorageNode),
            0x41 => Ok(Self::UpdateStorageNode),
            0x42 => Ok(Self::ValidateStorageNode),
            0x43 => Ok(Self::StoreWalletState),
            0x44 => Ok(Self::VerifyStorageState),
            0x45 => Ok(Self::ReplicateState),
            0x50 => Ok(Self::PrepareRootSubmission),
            0x51 => Ok(Self::SubmitToRoot),
            0x52 => Ok(Self::UpdateIntermediateState),
            0x53 => Ok(Self::ValidateIntermediateState),
            0x60 => Ok(Self::UpdateTree),
            0x61 => Ok(Self::ValidateTree),
            _ => Err("Invalid Intermediate operation code"),
        }
    }
}

impl TryFromSpecImpl<u8> for IntermediateOpCode {
    open spec fn obeys_try_from_spec() -> bool {
        true
    }

    open spec fn try_from_spec(v: u8) -> Result<Self, &'static str> {
        match intermediate_opcode_from_byte(v) {
            Some(c) => Ok(c),
            None => Err(intermediate_opcode_error()),
        }
    }
}

/// The protocol table of ChannelOpCode: the byte of each operation, and the
/// operation each of those bytes names.
pub proof fn lemma_channel_opcode_table()
    ensures
        channel_opcode_byte(ChannelOpCode::CreatePayment) == 0xA0u8,
        channel_opcode_byte(ChannelOpCode::UpdateState) == 0xA1u8,
        channel_opcode_byte(ChannelOpCode::FinalizeState) == 0xA2u8,
        channel_opcode_byte(ChannelOpCode::DisputeState) == 0xA3u8,
        channel_opcode_byte(ChannelOpCode::InitChannel) == 0xA4u8,
        channel_opcode_byte(ChannelOpCode::ValidatePayment) == 0xB0u8,
        channel_opcode_byte(ChannelOpCode::ValidateState) == 0xB1u8,
        channel_opcode_byte(ChannelOpCode::ValidateFinalState) == 0xB2u8,
        channel_opcode_byte(ChannelOpCode::ValidateDispute) == 0xB3u8,
        channel_opcode_byte(ChannelOpCode::ValidateSettlement) == 0xB4u8,
        channel_opcode_byte(ChannelOpCode::ProcessPayment) == 0xD1u8,
        channel_opcode_byte(ChannelOpCode::InitiateSettlement) == 0xE0u8,
        channel_opcode_byte(ChannelOpCode::ProcessSettlement) == 0xE1u8,
        channel_opcode_byte(ChannelOpCode::FinalizeSettlement) == 0xE2u8,
        channel_opcode_byte(ChannelOpCode::ValidateTransition) == 0xF0u8,
        channel_opcode_byte(ChannelOpCode::VerifyProof) == 0xF1u8,
        channel_opcode_byte(ChannelOpCode::GetChannel) == 0xF2u8,
        channel_opcode_from_byte(0xA0u8) == Some(ChannelOpCode::CreatePayment),
        channel_opcode_from_byte(0xA1u8) == Some(ChannelOpCode::UpdateState),
        channel_opcode_from_byte(0xA2u8) == Some(ChannelOpCode::FinalizeState),
        channel_opcode_from_byte(0xA3u8) == Some(ChannelOpCode::DisputeState),
        channel_opcode_from_byte(0xA4u8) == Some(ChannelOpCode::InitChannel),
        channel_opcode_from_byte(0xB0u8) == Some(ChannelOpCode::ValidatePayment),
        channel_opcode_from_byte(0xB1u8) == Some(ChannelOpCode::ValidateState),
        channel_opcode_from_byte(0xB2u8) == Some(ChannelOpCode::ValidateFinalState),
        channel_opcode_from_byte(0xB3u8) == Some(ChannelOpCode::ValidateDispute),
        channel_opcode_from_byte(0xB4u8) == Some(ChannelOpCode::ValidateSettlement),
        channel_opcode_from_byte(0xD1u8) == Some(ChannelOpCode::ProcessPayment),
        channel_opcode_from_byte(0xE0u8) == Some(ChannelOpCode::InitiateSettlement),
        channel_opcode_from_byte(0xE1u8) == Some(ChannelOpCode::ProcessSettlement),
        channel_opcode_from_byte(0xE2u8) == Some(ChannelOpCode::FinalizeSettlement),
        channel_opcode_from_byte(0xF0u8) == Some(ChannelOpCode::ValidateTransition),
        channel_opcode_from_byte(0xF1u8) == Some(ChannelOpCode::VerifyProof),
        channel_opcode_from_byte(0xF2u8) == Some(ChannelOpCode::GetChannel),
{
}

/// The protocol table of RootOpCode: the byte of each operation, and the
/// operation each of those bytes names.
pub proof fn lemma_root_opcode_table()
    ensures
        root_opcode_byte(RootOpCode::SubmitEpoch) == 0x01u8,
        root_opcode_byte(RootOpCode::ValidateEpoch) == 0x02u8,
        root_opcode_byte(RootOpCode::FinalizeEpoch) == 0x03u8,
        root_opcode_byte(RootOpCode::UpdateGlobalRoot) == 0x10u8,
        root_opcode_byte(RootOpCode::ValidateGlobalState) == 0x11u8,
        root_opcode_byte(RootOpCode::RegisterIntermediate) == 0x20u8,
        root_opcode_byte(RootOpCode::RemoveIntermediate) == 0x21u8,
        root_opcode_byte(RootOpCode::ValidateIntermediate) == 0x22u8,
        root_opcode_from_byte(0x01u8) == Some(RootOpCode::SubmitEpoch),
        root_opcode_from_byte(0x02u8) == Some(RootOpCode::ValidateEpoch),
        root_opcode_from_byte(0x03u8) == Some(RootOpCode::FinalizeEpoch),
        root_opcode_from_byte(0x10u8) == Some(RootOpCode::UpdateGlobalRoot),
        root_opcode_from_byte(0x11u8) == Some(RootOpCode::ValidateGlobalState),
        root_opcode_from_byte(0x20u8) == Some(RootOpCode::RegisterIntermediate),
        root_opcode_from_byte(0x21u8) == Some(RootOpCode::RemoveIntermediate),
        root_opcode_from_byte(0x22u8) == Some(RootOpCode::ValidateIntermediate),
{
}

/// The protocol table of StorageOpCode: the byte of each operation, and the
/// operation each of those bytes names.
pub proof fn lemma_storage_opcode_table()
    ensures
        storage_opcode_byte(StorageOpCode::ChargeNode) == 0xC0u8,
        storage_opcode_byte(StorageOpCode::DischargeNode) == 0xC1u8,
        storage_opcode_byte(StorageOpCode::ValidateBattery) == 0xC2u8,
        storage_opcode_byte(StorageOpCode::PropagateState) == 0xD0u8,
        storage_opcode_byte(StorageOpCode::SyncState) == 0xD1u8,
        storage_opcode_byte(StorageOpCode::ValidateSync) == 0xD2u8,
        storage_opcode_byte(StorageOpCode::ReplicateState) == 0xE0u8,
        storage_opcode_byte(StorageOpCode::ValidateReplica) == 0xE1u8,
        storage_opcode_from_byte(0xC0u8) == Some(StorageOpCode::ChargeNode),
        storage_opcode_from_byte(0xC1u8) == Some(StorageOpCode::DischargeNode),
        storage_opcode_from_byte(0xC2u8) == Some(StorageOpCode::ValidateBattery),
        storage_opcode_from_byte(0xD0u8) == Some(StorageOpCode::PropagateState),
        storage_opcode_from_byte(0xD1u8) == Some(StorageOpCode::SyncState),
        storage_opcode_from_byte(0xD2u8) == Some(StorageOpCode::ValidateSync),
        storage_opcode_from_byte(0xE0u8) == Some(StorageOpCode::ReplicateState),
        storage_opcode_from_byte(0xE1u8) == Some(StorageOpCode::ValidateReplica),
{
}

/// The protocol table of WalletOpCode: the byte of each operation, and the
/// operation each of those bytes names.
pub proof fn lemma_wallet_opcode_table()
    ensures
        wallet_opcode_byte(WalletOpCode::CreateChannel) == 0x70u8,
        wallet_opcode_byte(WalletOpCode::UpdateChannel) == 0x71u8,
        wallet_opcode_byte(WalletOpCode::CloseChannel) == 0x72u8,
        wallet_opcode_byte(WalletOpCode::ValidateChannel) == 0x73u8,
        wallet_opcode_byte(WalletOpCode::UpdateWalletTree) == 0x80u8,
        wallet_opcode_byte(WalletOpCode::ValidateWalletTree) == 0x81u8,
        wallet_opcode_byte(WalletOpCode::UpdateWalletState) == 0x90u8,
        wallet_opcode_byte(WalletOpCode::ValidateWalletState) == 0x91u8,
        wallet_opcode_byte(WalletOpCode::UpdateBalance) == 0xB0u8,
        wallet_opcode_byte(WalletOpCode::ValidateBalance) == 0xB1u8,
        wallet_opcode_byte(WalletOpCode::CreateTransaction) == 0xC0u8,
        wallet_opcode_byte(WalletOpCode::ValidateTransaction) == 0xC1u8,
        wallet_opcode_byte(WalletOpCode::ProcessTransaction) == 0xC2u8,
        wallet_opcode_byte(WalletOpCode::GenerateWalletProof) == 0xD0u8,
        wallet_opcode_byte(WalletOpCode::VerifyWalletProof) == 0xD1u8,
        wallet_opcode_from_byte(0x70u8) == Some(WalletOpCode::CreateChannel),
        wallet_opcode_from_byte(0x71u8) == Some(WalletOpCode::UpdateChannel),
        wallet_opcode_from_byte(0x72u8) == Some(WalletOpCode::CloseChannel),
        wallet_opcode_from_byte(0x73u8) == Some(WalletOpCode::ValidateChannel),
        wallet_opcode_from_byte(0x80u8) == Some(WalletOpCode::UpdateWalletTree),
        wallet_opcode_from_byte(0x81u8) == Some(WalletOpCode::ValidateWalletTree),
        wallet_opcode_from_byte(0x90u8) == Some(WalletOpCode::UpdateWalletState),
        wallet_opcode_from_byte(0x91u8) == Some(WalletOpCode::ValidateWalletState),
        wallet_opcode_from_byte(0xB0u8) == Some(WalletOpCode::UpdateBalance),
        wallet_opcode_from_byte(0xB1u8) == Some(WalletOpCode::ValidateBalance),
        wallet_opcode_from_byte(0xC0u8) == Some(WalletOpCode::CreateTransaction),
        wallet_opcode_from_byte(0xC1u8) == Some(WalletOpCode::ValidateTransaction),
        wallet_opcode_from_byte(0xC2u8) == Some(WalletOpCode::ProcessTransaction),
        wallet_opcode_from_byte(0xD0u8) == Some(WalletOpCode::GenerateWalletProof),
        wallet_opcode_from_byte(0xD1u8) == Some(WalletOpCode::VerifyWalletProof),
{
}

/// The protocol table of WalletExtensionStateChangeOp: the byte of each operation, and the
/// operation each of those bytes names.
pub proof fn lemma_wallet_extension_op_table()
    ensures
        wallet_extension_op_byte(WalletExtensionStateChangeOp::CreateChannel) == 0x70u8,
        wallet_extension_op_byte(WalletExtensionStateChangeOp::UpdateChannel) == 0x71u8,
        wallet_extension_op_byte(WalletExtensionStateChangeOp::CloseChannel) == 0x72u8,
        wallet_extension_op_byte(WalletExtensionStateChangeOp::ValidateChannel) == 0x73u8,
        wallet_extension_op_byte(WalletExtensionStateChangeOp::ProcessChannel) == 0x74u8,
        wallet_extension_op_byte(WalletExtensionStateChangeOp::ValidateTransaction) == 0x80u8,
        wallet_extension_op_byte(WalletExtensionStateChangeOp::ProcessTransaction) == 0x81u8,
        wallet_extension_op_byte(WalletExtensionStateChangeOp::FinalizeState) == 0x82u8,
        wallet_extension_op_from_byte(0x70u8) == Some(WalletExtensionStateChangeOp::CreateChannel),
        wallet_extension_op_from_byte(0x71u8) == Some(WalletExtensionStateChangeOp::UpdateChannel),
        wallet_extension_op_from_byte(0x72u8) == Some(WalletExtensionStateChangeOp::CloseChannel),
        wallet_extension_op_from_byte(0x73u8) == Some(WalletExtensionStateChangeOp::ValidateChannel),
        wallet_extension_op_from_byte(0x74u8) == Some(WalletExtensionStateChangeOp::ProcessChannel),
        wallet_extension_op_from_byte(0x80u8) == Some(WalletExtensionStateChangeOp::ValidateTransaction),
        wallet_extension_op_from_byte(0x81u8) == Some(WalletExtensionStateChangeOp::ProcessTransaction),
        wallet_extension_op_from_byte(0x82u8) == Some(WalletExtensionStateChangeOp::FinalizeState),
{
}

/// The protocol table of IntermediateOpCode: the byte of each operation, and the
/// operation each of those bytes names.
pub proof fn lemma_intermediate_opcode_table()
    ensures
        intermediate_opcode_byte(IntermediateOpCode::RequestChannelOpen) == 0x20u8,
        intermediate_opcode_byte(IntermediateOpCode::ApproveChannelOpen) == 0x21u8,
        intermediate_opcode_byte(IntermediateOpCode::RequestChannelClose) == 0x22u8,
        intermediate_opcode_byte(IntermediateOpCode::ProcessChannelClose) == 0x23u8,
        intermediate_opcode_byte(IntermediateOpCode::RequestManualRebalance) == 0x24u8,
        intermediate_opcode_byte(IntermediateOpCode::CheckChannelBalances) == 0x25u8,
        intermediate_opcode_byte(IntermediateOpCode::ValidateRebalance) == 0x26u8,
        intermediate_opcode_byte(IntermediateOpCode::ExecuteRebalance) == 0x27u8,
        intermediate_opcode_byte(IntermediateOpCode::RegisterWallet) == 0x30u8,
        intermediate_opcode_byte(IntermediateOpCode::UpdateWalletRoot) == 0x31u8,
        intermediate_opcode_byte(IntermediateOpCode::ValidateWalletRoot) == 0x32u8,
        intermediate_opcode_byte(IntermediateOpCode::ProcessWalletRoot) == 0x33u8,
        intermediate_opcode_byte(IntermediateOpCode::ValidateStateUpdate) == 0x34u8,
        intermediate_opcode_byte(IntermediateOpCode::AssignStorageNode) == 0x40u8,
        intermediate_opcode_byte(IntermediateOpCode::UpdateStorageNode) == 0x41u8,
        intermediate_opcode_byte(IntermediateOpCode::ValidateStorageNode) == 0x42u8,
        intermediate_opcode_byte(IntermediateOpCode::StoreWalletState) == 0x43u8,
        intermediate_opcode_byte(IntermediateOpCode::VerifyStorageState) == 0x44u8,
        intermediate_opcode_byte(IntermediateOpCode::ReplicateState) == 0x45u8,
        intermediate_opcode_byte(IntermediateOpCode::PrepareRootSubmission) == 0x50u8,
        intermediate_opcode_byte(IntermediateOpCode::SubmitToRoot) == 0x51u8,
        intermediate_opcode_byte(IntermediateOpCode::UpdateIntermediateState) == 0x52u8,
        intermediate_opcode_byte(IntermediateOpCode::ValidateIntermediateState) == 0x53u8,
        intermediate_opcode_byte(IntermediateOpCode::UpdateTree) == 0x60u8,
        intermediate_opcode_byte(IntermediateOpCode::ValidateTree) == 0x61u8,
        intermediate_opcode_from_byte(0x20u8) == Some(IntermediateOpCode::RequestChannelOpen),
        intermediate_opcode_from_byte(0x21u8) == Some(IntermediateOpCode::ApproveChannelOpen),
        intermediate_opcode_from_byte(0x22u8) == Some(IntermediateOpCode::RequestChannelClose),
        intermediate_opcode_from_byte(0x23u8) == Some(IntermediateOpCode::ProcessChannelClose),
        intermediate_opcode_from_byte(0x24u8) == Some(IntermediateOpCode::RequestManualRebalance),
        intermediate_opcode_from_byte(0x25u8) == Some(IntermediateOpCode::CheckChannelBalances),
        intermediate_opcode_from_byte(0x26u8) == Some(IntermediateOpCode::ValidateRebalance),
        intermediate_opcode_from_byte(0x27u8) == Some(IntermediateOpCode::ExecuteRebalance),
        intermediate_opcode_from_byte(0x30u8) == Some(IntermediateOpCode::RegisterWallet),
        intermediate_opcode_from_byte(0x31u8) == Some(IntermediateOpCode::UpdateWalletRoot),
        intermediate_opcode_from_byte(0x32u8) == Some(IntermediateOpCode::ValidateWalletRoot),
        intermediate_opcode_from_byte(0x33u8) == Some(IntermediateOpCode::ProcessWalletRoot),
        intermediate_opcode_from_byte(0x34u8) == Some(IntermediateOpCode::ValidateStateUpdate),
        intermediate_opcode_from_byte(0x40u8) == Some(IntermediateOpCode::AssignStorageNode),
        intermediate_opcode_from_byte(0x41u8) == Some(IntermediateOpCode::UpdateStorageNode),
        intermediate_opcode_from_byte(0x42u8) == Some(IntermediateOpCode::ValidateStorageNode),
        intermediate_opcode_from_byte(0x43u8) == Some(IntermediateOpCode::StoreWalletState),
        intermediate_opcode_from_byte(0x44u8) == Some(IntermediateOpCode::VerifyStorageState),
        intermediate_opcode_from_byte(0x45u8) == Some(IntermediateOpCode::ReplicateState),
        intermediate_opcode_from_byte(0x50u8) == Some(IntermediateOpCode::PrepareRootSubmission),
        intermediate_opcode_from_byte(0x51u8) == Some(IntermediateOpCode::SubmitToRoot),
        intermediate_opcode_from_byte(0x52u8) == Some(IntermediateOpCode::UpdateIntermediateState),
        intermediate_opcode_from_byte(0x53u8) == Some(IntermediateOpCode::ValidateIntermediateState),
        intermediate_opcode_from_byte(0x60u8) == Some(IntermediateOpCode::UpdateTree),
        intermediate_opcode_from_byte(0x61u8) == Some(IntermediateOpCode::ValidateTree),
{
}

/// Each `ChannelOpCode` is read back from its own byte, and a byte that names a
/// `ChannelOpCode` is that operation's byte.
pub proof fn lemma_channel_opcode_byte_roundtrip(c: ChannelOpCode, v: u8)
    ensures
        channel_opcode_from_byte(channel_opcode_byte(c)) == Some(c),
        channel_opcode_from_byte(v) matches Some(d) ==> channel_opcode_byte(d) == v,
{
}

/// Each `RootOpCode` is read back from its own byte, and a byte that names a
/// `RootOpCode` is that operation's byte.
pub proof fn lemma_root_opcode_byte_roundtrip(c: RootOpCode, v: u8)
    ensures
        root_opcode_from_byte(root_opcode_byte(c)) == Some(c),
        root_opcode_from_byte(v) matches Some(d) ==> root_opcode_byte(d) == v,
{
}

/// Each `StorageOpCode` is read back from its own byte, and a byte that names a
/// `StorageOpCode` is that operation's byte.
pub proof fn lemma_storage_opcode_byte_roundtrip(c: StorageOpCode, v: u8)
    ensures
        storage_opcode_from_byte(storage_opcode_byte(c)) == Some(c),
        storage_opcode_from_byte(v) matches Some(d) ==> storage_opcode_byte(d) == v,
{
}

/// Each `WalletOpCode` is read back from its own byte, and a byte that names a
/// `WalletOpCode` is that operation's byte.
pub proof fn lemma_wallet_opcode_byte_roundtrip(c: WalletOpCode, v: u8)
    ensures
        wallet_opcode_from_byte(wallet_opcode_byte(c)) == Some(c),
        wallet_opcode_from_byte(v) matches Some(d) ==> wallet_opcode_byte(d) == v,
{
}

/// Each `WalletExtensionStateChangeOp` is read back from its own byte, and a byte that names a
/// `WalletExtensionStateChangeOp` is that operation's byte.
pub proof fn lemma_wallet_extension_op_byte_roundtrip(c: WalletExtensionStateChangeOp, v: u8)
    ensures
        wallet_extension_op_from_byte(wallet_extension_op_byte(c)) == Some(c),
        wallet_extension_op_from_byte(v) matches Some(d) ==> wallet_extension_op_byte(d) == v,
{
}

/// Each `IntermediateOpCode` is read back from its own byte, and a byte that names a
/// `IntermediateOpCode` is that operation's byte.
pub proof fn lemma_intermediate_opcode_byte_roundtrip(c: IntermediateOpCode, v: u8)
    ensures
        intermediate_opcode_from_byte(intermediate_opcode_byte(c)) == Some(c),
        intermediate_opcode_from_byte(v) matches Some(d) ==> intermediate_opcode_byte(d) == v,
{
}

/// Decoding then encoding is the identity: a byte that decodes to an
/// operation is that operation's byte.
pub proof fn lemma_opcode_decode_encode(v: u8)
    ensures
        opcode_from_byte(v) matches Some(op) ==> opcode_byte(op) == v,
{
    lemma_root_opcode_byte_roundtrip(RootOpCode::SubmitEpoch, v);
    lemma_intermediate_opcode_byte_roundtrip(IntermediateOpCode::RequestChannelOpen, v);
    lemma_storage_opcode_byte_roundtrip(StorageOpCode::ChargeNode, v);
    lemma_wallet_opcode_byte_roundtrip(WalletOpCode::CreateChannel, v);
    lemma_channel_opcode_byte_roundtrip(ChannelOpCode::CreatePayment, v);
}

/// The byte of every operation decodes to some operation, and to the same
/// operation when no family earlier in the decoding order defines that byte.
pub proof fn lemma_opcode_encode_decode(op: OpCode)
    ensures
        opcode_from_byte(opcode_byte(op)) is Some,
        match op {
            OpCode::Root(_) => true,
            OpCode::Intermediate(_) => root_opcode_from_byte(opcode_byte(op)) is None,
            OpCode::Storage(_) => root_opcode_from_byte(opcode_byte(op)) is None
                && intermediate_opcode_from_byte(opcode_byte(op)) is None,
            OpCode::Wallet(_) => root_opcode_from_byte(opcode_byte(op)) is None
                && intermediate_opcode_from_byte(opcode_byte(op)) is None
                && storage_opcode_from_byte(opcode_byte(op)) is None,
            OpCode::Channel(_) => root_opcode_from_byte(opcode_byte(op)) is None
                && intermediate_opcode_from_byte(opcode_byte(op)) is None
                && storage_opcode_from_byte(opcode_byte(op)) is None
                && wallet_opcode_from_byte(opcode_byte(op)) is None,
        } ==> opcode_from_byte(opcode_byte(op)) == Some(op),
{
    match op {
        OpCode::Root(c) => lemma_root_opcode_byte_roundtrip(c, 0),
        OpCode::Intermediate(c) => lemma_intermediate_opcode_byte_roundtrip(c, 0),
        OpCode::Storage(c) => lemma_storage_opcode_byte_roundtrip(c, 0),
        OpCode::Wallet(c) => lemma_wallet_opcode_byte_roundtrip(c, 0),
        OpCode::Channel(c) => lemma_channel_opcode_byte_roundtrip(c, 0),
    }
}

} // verus!
